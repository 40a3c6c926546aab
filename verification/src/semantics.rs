//! What executing the built statement means, stated over a mathematical
//! model of the metadata store, and the ordering law that follows: the rows
//! that come back are exactly the matching ones, ascending by table name.

use vstd::prelude::*;
use crate::fields::{TableType, TablesFields};
use crate::statement::tables_query_conditions;

verus! {

/// One row of the metadata store's table listing, as the statement's
/// predicates and ordering see it.
pub struct TablesViewRow {
    pub table_schema: Seq<char>,
    pub table_type: Seq<char>,
    pub table_name: Seq<char>,
    pub engine: Seq<char>,
    pub auto_increment: int,
    pub table_collation: Seq<char>,
    pub table_comment: Seq<char>,
    pub create_options: Seq<char>,
}

/// The text a row holds under a column identifier, or nothing when the
/// column is not one of the listing's text columns.
pub open spec fn column_text(row: TablesViewRow, column: Seq<char>) -> Option<Seq<char>> {
    if column == TablesFields::TableSchema.iden_name() {
        Some(row.table_schema)
    } else if column == TablesFields::TableType.iden_name() {
        Some(row.table_type)
    } else if column == TablesFields::TableName.iden_name() {
        Some(row.table_name)
    } else if column == TablesFields::Engine.iden_name() {
        Some(row.engine)
    } else if column == TablesFields::TableCollation.iden_name() {
        Some(row.table_collation)
    } else if column == TablesFields::TableComment.iden_name() {
        Some(row.table_comment)
    } else if column == TablesFields::CreateOptions.iden_name() {
        Some(row.create_options)
    } else {
        None
    }
}

/// Whether a row satisfies every equality predicate of a WHERE clause.
pub open spec fn row_matches(row: TablesViewRow, conditions: Seq<(Seq<char>, Seq<char>)>) -> bool {
    forall|i: int|
        0 <= i < conditions.len() ==> column_text(row, conditions[i].0) == Some(conditions[i].1)
}

/// The rows of a store that satisfy every predicate, in store order.
pub open spec fn matching_rows(
    store: Seq<TablesViewRow>,
    conditions: Seq<(Seq<char>, Seq<char>)>,
) -> Seq<TablesViewRow> {
    store.filter(|r: TablesViewRow| row_matches(r, conditions))
}

/// Lexicographic order on identifiers, character by character.
pub open spec fn lex_leq(a: Seq<char>, b: Seq<char>) -> bool
    decreases a.len(),
{
    if a.len() == 0 {
        true
    } else if b.len() == 0 {
        false
    } else if a.first() == b.first() {
        lex_leq(a.drop_first(), b.drop_first())
    } else {
        a.first() < b.first()
    }
}

/// Strict lexicographic order.
pub open spec fn lex_lt(a: Seq<char>, b: Seq<char>) -> bool {
    lex_leq(a, b) && a != b
}

/// Whether a sequence of rows is ascending by table name.
pub open spec fn sorted_by_name(rows: Seq<TablesViewRow>) -> bool {
    forall|i: int, j: int|
        0 <= i < j < rows.len() ==> lex_leq(rows[i].table_name, rows[j].table_name)
}

/// What executing a statement with the given WHERE clause against a store
/// may return: some arrangement of exactly the matching rows, ascending by
/// table name.
pub open spec fn query_outcome(
    store: Seq<TablesViewRow>,
    conditions: Seq<(Seq<char>, Seq<char>)>,
    out: Seq<TablesViewRow>,
) -> bool {
    &&& sorted_by_name(out)
    &&& out.to_multiset() == matching_rows(store, conditions).to_multiset()
}

/// The order is antisymmetric: identifiers at most each other are equal.
pub proof fn lemma_lex_leq_antisymmetric(a: Seq<char>, b: Seq<char>)
    requires
        lex_leq(a, b),
        lex_leq(b, a),
    ensures
        a == b,
    decreases a.len(),
{
    if a.len() == 0 {
        assert(b.len() == 0);
        assert(a =~= b);
    } else {
        assert(b.len() != 0);
        assert(a.first() == b.first());
        lemma_lex_leq_antisymmetric(a.drop_first(), b.drop_first());
        assert(forall|i: int| 1 <= i < a.len() ==> #[trigger] a[i] == a.drop_first()[i - 1]);
        assert(forall|i: int| 1 <= i < b.len() ==> #[trigger] b[i] == b.drop_first()[i - 1]);
        assert(a.len() == b.len()) by {
            assert(a.drop_first().len() == b.drop_first().len());
        }
        assert(a =~= b);
    }
}

/// The order is transitive.
pub proof fn lemma_lex_leq_transitive(a: Seq<char>, b: Seq<char>, c: Seq<char>)
    requires
        lex_leq(a, b),
        lex_leq(b, c),
    ensures
        lex_leq(a, c),
    decreases a.len(),
{
    if a.len() != 0 && b.len() != 0 && c.len() != 0 && a.first() == b.first() && b.first()
        == c.first() {
        lemma_lex_leq_transitive(a.drop_first(), b.drop_first(), c.drop_first());
    }
}

/// A store whose rows all match filters to itself.
proof fn lemma_matching_rows_all(store: Seq<TablesViewRow>, conditions: Seq<(Seq<char>, Seq<char>)>)
    requires
        forall|i: int| 0 <= i < store.len() ==> row_matches(#[trigger] store[i], conditions),
    ensures
        matching_rows(store, conditions) == store,
    decreases store.len(),
{
    reveal(Seq::filter);
    if store.len() == 0 {
        assert(matching_rows(store, conditions) =~= store);
    } else {
        let head = store.drop_last();
        assert(forall|i: int| 0 <= i < head.len() ==> row_matches(#[trigger] head[i], conditions));
        lemma_matching_rows_all(head, conditions);
        assert(row_matches(store.last(), conditions));
        assert(matching_rows(store, conditions) == matching_rows(head, conditions).push(
            store.last(),
        ));
        assert(head.push(store.last()) =~= store);
    }
}

/// A base table of the queried schema satisfies both predicates the built
/// statement filters on.
pub proof fn lemma_base_table_row_matches(schema: Seq<char>, row: TablesViewRow)
    requires
        row.table_schema == schema,
        row.table_type == TableType::BaseTable.iden_name(),
    ensures
        row_matches(row, tables_query_conditions(schema)),
{
    reveal_strlit("table_schema");
    reveal_strlit("table_type");
    let conds = tables_query_conditions(schema);
    assert("table_type"@.len() == 10);
    assert("table_schema"@.len() == 12);
    assert(TablesFields::TableType.iden_name() != TablesFields::TableSchema.iden_name());
    assert(column_text(row, conds[0].0) == Some(schema));
    assert(column_text(row, conds[1].0) == Some(TableType::BaseTable.iden_name()));
}

/// Round trip of the build: executing the statement built for a schema
/// against a store holding three base tables of that schema whose names
/// ascend strictly yields their records in exactly that order.
pub proof fn lemma_round_trip_ordering(
    schema: Seq<char>,
    t1: TablesViewRow,
    t2: TablesViewRow,
    t3: TablesViewRow,
    out: Seq<TablesViewRow>,
)
    requires
        row_matches(t1, tables_query_conditions(schema)),
        row_matches(t2, tables_query_conditions(schema)),
        row_matches(t3, tables_query_conditions(schema)),
        lex_lt(t1.table_name, t2.table_name),
        lex_lt(t2.table_name, t3.table_name),
        query_outcome(seq![t1, t2, t3], tables_query_conditions(schema), out),
    ensures
        out == seq![t1, t2, t3],
{
    broadcast use vstd::seq_lib::group_to_multiset_ensures;

    let conds = tables_query_conditions(schema);
    let store = seq![t1, t2, t3];
    let n1 = t1.table_name;
    let n2 = t2.table_name;
    let n3 = t3.table_name;

    // The three names, hence the three rows, are pairwise distinct.
    assert(!lex_leq(n2, n1)) by {
        if lex_leq(n2, n1) {
            lemma_lex_leq_antisymmetric(n1, n2);
        }
    }
    assert(!lex_leq(n3, n2)) by {
        if lex_leq(n3, n2) {
            lemma_lex_leq_antisymmetric(n2, n3);
        }
    }
    assert(lex_leq(n1, n3)) by {
        lemma_lex_leq_transitive(n1, n2, n3);
    }
    assert(!lex_leq(n3, n1)) by {
        if lex_leq(n3, n1) {
            lemma_lex_leq_antisymmetric(n1, n3);
            assert(!lex_leq(n2, n1));
        }
    }
    assert(t1 != t2 && t2 != t3 && t1 != t3);

    // The whole store matches, so execution returns some arrangement of it.
    assert(forall|i: int| 0 <= i < store.len() ==> row_matches(#[trigger] store[i], conds));
    lemma_matching_rows_all(store, conds);
    assert(out.to_multiset() == store.to_multiset());

    // Same multiset of three distinct rows: `out` holds each exactly once.
    assert(out.to_multiset().len() == out.len());
    assert(store.to_multiset().len() == store.len());
    assert(out.len() == 3);
    assert(store.no_duplicates());
    store.lemma_multiset_has_no_duplicates();
    out.lemma_multiset_has_no_duplicates_conv();
    assert(store.contains(t1)) by {
        assert(store[0] == t1);
    }
    assert(store.contains(t2)) by {
        assert(store[1] == t2);
    }
    assert(store.contains(t3)) by {
        assert(store[2] == t3);
    }
    assert(out.contains(t1)) by {
        assert(store.to_multiset().count(t1) > 0);
        assert(out.to_multiset().count(t1) > 0);
    }
    assert(out.contains(t2)) by {
        assert(store.to_multiset().count(t2) > 0);
        assert(out.to_multiset().count(t2) > 0);
    }
    assert(out.contains(t3)) by {
        assert(store.to_multiset().count(t3) > 0);
        assert(out.to_multiset().count(t3) > 0);
    }
    assert(forall|k: int| 0 <= k < out.len() ==> #[trigger] store.contains(out[k])) by {
        assert forall|k: int| 0 <= k < out.len() implies #[trigger] store.contains(out[k]) by {
            assert(out.contains(out[k]));
            assert(out.to_multiset().count(out[k]) > 0);
            assert(store.to_multiset().count(out[k]) > 0);
        }
    }
    assert(forall|k: int| 0 <= k < 3 ==> out[k] == t1 || out[k] == t2 || out[k] == t3) by {
        assert forall|k: int| 0 <= k < 3 implies out[k] == t1 || out[k] == t2 || out[k] == t3 by {
            assert(store.contains(out[k]));
            let i = choose|i: int| 0 <= i < store.len() && store[i] == out[k];
            assert(i == 0 || i == 1 || i == 2);
        }
    }

    // Ascending order pins each position.
    assert(out[0] == t1) by {
        if out[0] == t2 {
            let i = choose|i: int| 0 <= i < out.len() && out[i] == t1;
            assert(out.contains(t1));
            assert(0 < i < 3);
            assert(lex_leq(out[0].table_name, out[i].table_name));
        }
        if out[0] == t3 {
            let i = choose|i: int| 0 <= i < out.len() && out[i] == t1;
            assert(out.contains(t1));
            assert(0 < i < 3);
            assert(lex_leq(out[0].table_name, out[i].table_name));
        }
    }
    assert(out[1] == t2) by {
        assert(out[1] != t1);
        if out[1] == t3 {
            let i = choose|i: int| 0 <= i < out.len() && out[i] == t2;
            assert(out.contains(t2));
            assert(i == 2);
            assert(lex_leq(out[1].table_name, out[2].table_name));
        }
    }
    assert(out[2] == t3) by {
        assert(out[2] != t1 && out[2] != t2);
    }
    assert(out =~= seq![t1, t2, t3]);
}

} // verus!
