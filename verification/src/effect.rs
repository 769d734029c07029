//! What a sparse update means for the store, and the laws that follow: which
//! rows and columns it can touch, and how its text relates to its parameters.
//!
//! The store is modelled as a map from ids to rows, a row as a map from
//! columns to values.

use vstd::prelude::*;
use crate::update::{
    build_outcome, parameter_texts, set_clause, statement_text, supplied, AssignmentView,
    FieldView, MutationView, UpdateOutcomeView,
};

verus! {

/// A stored row: the value of each column.
pub type Row = Map<Seq<char>, Seq<char>>;

/// The rows of a table, by id.
pub type Rows = Map<int, Row>;

/// The row after the assignments were stored in it, one after the other.
pub open spec fn assign(row: Row, assignments: Seq<AssignmentView>) -> Row
    decreases assignments.len(),
{
    if assignments.len() == 0 {
        row
    } else {
        assign(row, assignments.drop_last()).insert(
            assignments.last().column,
            assignments.last().value,
        )
    }
}

impl UpdateOutcomeView {
    /// How many statements the outcome sends to the store.
    pub open spec fn statements(self) -> nat {
        match self {
            UpdateOutcomeView::NoOp => 0,
            UpdateOutcomeView::Apply(_) => 1,
        }
    }

    /// The rows after the outcome was carried out: the assignments stored in
    /// the row of the target id, where there is one.
    pub open spec fn effect(self, rows: Rows) -> Rows {
        match self {
            UpdateOutcomeView::NoOp => rows,
            UpdateOutcomeView::Apply(m) => if rows.dom().contains(m.target_id) {
                rows.insert(m.target_id, assign(rows[m.target_id], m.assignments))
            } else {
                rows
            },
        }
    }
}

/// Whether the fields supply a value for `column`.
pub open spec fn supplies(fields: Seq<FieldView>, column: Seq<char>) -> bool {
    exists|i: int|
        0 <= i < fields.len() && #[trigger] fields[i].value is Some && fields[i].column == column
}

proof fn lemma_supplied_has_origin(fields: Seq<FieldView>, j: int)
    requires
        0 <= j < supplied(fields).len(),
    ensures
        supplies(fields, supplied(fields)[j].column),
    decreases fields.len(),
{
    let shorter = fields.drop_last();
    if !(fields.last().value is Some && j == supplied(shorter).len()) {
        lemma_supplied_has_origin(shorter, j);
    }
}

proof fn lemma_assign_keeps(row: Row, assignments: Seq<AssignmentView>, column: Seq<char>)
    requires
        forall|j: int| 0 <= j < assignments.len() ==> (#[trigger] assignments[j]).column != column,
    ensures
        assign(row, assignments).dom().contains(column) == row.dom().contains(column),
        assign(row, assignments)[column] == row[column],
    decreases assignments.len(),
{
    if assignments.len() > 0 {
        lemma_assign_keeps(row, assignments.drop_last(), column);
    }
}

/// An update is a no-op exactly where no field is present.
pub proof fn law_noop_iff_nothing_supplied(table: Seq<char>, target_id: int, fields: Seq<FieldView>)
    ensures
        build_outcome(table, target_id, fields) == UpdateOutcomeView::NoOp <==> forall|i: int|
            0 <= i < fields.len() ==> (#[trigger] fields[i]).value is None,
    decreases fields.len(),
{
    if fields.len() > 0 {
        let shorter = fields.drop_last();
        law_noop_iff_nothing_supplied(table, target_id, shorter);
        if supplied(fields).len() == 0 {
            assert forall|i: int| 0 <= i < fields.len() implies (#[trigger] fields[i]).value
                is None by {
                if i < shorter.len() {
                    assert(shorter[i] == fields[i]);
                }
            }
        }
    }
}

/// With no field present nothing is sent to the store, and every row stays as
/// it was.
pub proof fn law_nothing_supplied_changes_nothing(
    table: Seq<char>,
    target_id: int,
    fields: Seq<FieldView>,
    rows: Rows,
)
    requires
        forall|i: int| 0 <= i < fields.len() ==> (#[trigger] fields[i]).value is None,
    ensures
        build_outcome(table, target_id, fields).statements() == 0,
        build_outcome(table, target_id, fields).effect(rows) == rows,
{
    law_noop_iff_nothing_supplied(table, target_id, fields);
}

/// An update touches at most the row of its target id: the table keeps its
/// ids, and every other row stays as it was. Where the target id is not in the
/// table, nothing changes at all.
pub proof fn law_only_target_row_changes(
    table: Seq<char>,
    target_id: int,
    fields: Seq<FieldView>,
    rows: Rows,
    id: int,
)
    ensures
        build_outcome(table, target_id, fields).effect(rows).dom() == rows.dom(),
        id != target_id ==> build_outcome(table, target_id, fields).effect(rows)[id] == rows[id],
        !rows.dom().contains(target_id) ==> build_outcome(table, target_id, fields).effect(rows)
            == rows,
{
    assert(build_outcome(table, target_id, fields).effect(rows).dom() =~= rows.dom());
}

/// A column for which no value is supplied is left untouched in the target
/// row: it is there afterwards exactly if it was before, with the same value.
pub proof fn law_absent_column_untouched(
    table: Seq<char>,
    target_id: int,
    fields: Seq<FieldView>,
    rows: Rows,
    column: Seq<char>,
)
    requires
        !supplies(fields, column),
    ensures
        build_outcome(table, target_id, fields).effect(rows)[target_id].dom().contains(column)
            == rows[target_id].dom().contains(column),
        build_outcome(table, target_id, fields).effect(rows)[target_id][column]
            == rows[target_id][column],
{
    let a = supplied(fields);
    assert forall|j: int| 0 <= j < a.len() implies (#[trigger] a[j]).column != column by {
        lemma_supplied_has_origin(fields, j);
    }
    lemma_assign_keeps(rows[target_id], a, column);
}

/// A supplied value is stored: where the target row exists and field `i` is
/// the last present one for its column, the column holds that value afterwards.
pub proof fn law_supplied_value_stored(
    table: Seq<char>,
    target_id: int,
    fields: Seq<FieldView>,
    rows: Rows,
    i: int,
)
    requires
        rows.dom().contains(target_id),
        0 <= i < fields.len(),
        fields[i].value is Some,
        forall|k: int|
            i < k < fields.len() && (#[trigger] fields[k]).value is Some ==> fields[k].column
                != fields[i].column,
    ensures
        build_outcome(table, target_id, fields).effect(rows)[target_id].dom().contains(
            fields[i].column,
        ),
        build_outcome(table, target_id, fields).effect(rows)[target_id][fields[i].column]
            == fields[i].value->0,
{
    lemma_assign_stores(rows[target_id], fields, i);
    law_noop_iff_nothing_supplied(table, target_id, fields);
}

proof fn lemma_assign_stores(row: Row, fields: Seq<FieldView>, i: int)
    requires
        0 <= i < fields.len(),
        fields[i].value is Some,
        forall|k: int|
            i < k < fields.len() && (#[trigger] fields[k]).value is Some ==> fields[k].column
                != fields[i].column,
    ensures
        assign(row, supplied(fields)).dom().contains(fields[i].column),
        assign(row, supplied(fields))[fields[i].column] == fields[i].value->0,
    decreases fields.len(),
{
    let shorter = fields.drop_last();
    if i < shorter.len() {
        lemma_assign_stores(row, shorter, i);
    }
    if fields.last().value is Some {
        assert(supplied(fields).drop_last() =~= supplied(shorter));
    }
}

/// The text of a statement depends on the table and the columns alone: two
/// updates that differ only in their values and in the target id read the same.
pub proof fn law_statement_holds_no_value(m1: MutationView, m2: MutationView)
    requires
        m1.table == m2.table,
        m1.assignments.len() == m2.assignments.len(),
        forall|j: int|
            0 <= j < m1.assignments.len() ==> (#[trigger] m1.assignments[j]).column
                == m2.assignments[j].column,
    ensures
        statement_text(m1) == statement_text(m2),
{
    lemma_set_clause_holds_no_value(m1.assignments, m2.assignments);
}

proof fn lemma_set_clause_holds_no_value(a: Seq<AssignmentView>, b: Seq<AssignmentView>)
    requires
        a.len() == b.len(),
        forall|j: int| 0 <= j < a.len() ==> (#[trigger] a[j]).column == b[j].column,
    ensures
        set_clause(a) == set_clause(b),
    decreases a.len(),
{
    if a.len() > 0 {
        lemma_set_clause_holds_no_value(a.drop_last(), b.drop_last());
    }
}

/// How often the character `c` occurs in `text`.
pub open spec fn occurrences(text: Seq<char>, c: char) -> nat
    decreases text.len(),
{
    if text.len() == 0 {
        0
    } else {
        occurrences(text.drop_last(), c) + if text.last() == c {
            1nat
        } else {
            0nat
        }
    }
}

proof fn lemma_occurrences_add(a: Seq<char>, b: Seq<char>, c: char)
    ensures
        occurrences(a + b, c) == occurrences(a, c) + occurrences(b, c),
    decreases b.len(),
{
    if b.len() == 0 {
        assert(a + b =~= a);
    } else {
        assert((a + b).drop_last() =~= a + b.drop_last());
        lemma_occurrences_add(a, b.drop_last(), c);
    }
}

proof fn lemma_placeholders_of_the_fixed_parts()
    ensures
        occurrences("UPDATE "@, '?') == 0,
        occurrences(" SET "@, '?') == 0,
        occurrences(", "@, '?') == 0,
        occurrences(" = ?"@, '?') == 1,
        occurrences(" WHERE id = ?"@, '?') == 1,
{
    reveal_strlit("UPDATE ");
    reveal_strlit(" SET ");
    reveal_strlit(", ");
    reveal_strlit(" = ?");
    reveal_strlit(" WHERE id = ?");
    reveal_with_fuel(occurrences, 16);
}

proof fn lemma_placeholders_of_set_clause(assignments: Seq<AssignmentView>)
    requires
        forall|j: int|
            0 <= j < assignments.len() ==> occurrences(
                (#[trigger] assignments[j]).column,
                '?',
            ) == 0,
    ensures
        occurrences(set_clause(assignments), '?') == assignments.len(),
    decreases assignments.len(),
{
    lemma_placeholders_of_the_fixed_parts();
    if assignments.len() > 0 {
        let before = assignments.drop_last();
        let last = assignments.last();
        let lead = if assignments.len() == 1 {
            Seq::<char>::empty()
        } else {
            set_clause(before) + ", "@
        };
        if assignments.len() > 1 {
            lemma_placeholders_of_set_clause(before);
            lemma_occurrences_add(set_clause(before), ", "@, '?');
        }
        lemma_occurrences_add(lead, last.column, '?');
        lemma_occurrences_add(lead + last.column, " = ?"@, '?');
    }
}

/// Values are bound by position: where neither the table nor a column holds a
/// `?`, the statement has exactly one placeholder for each parameter.
pub proof fn law_one_placeholder_per_parameter(m: MutationView)
    requires
        occurrences(m.table, '?') == 0,
        forall|j: int|
            0 <= j < m.assignments.len() ==> occurrences(
                (#[trigger] m.assignments[j]).column,
                '?',
            ) == 0,
    ensures
        occurrences(statement_text(m), '?') == parameter_texts(m).len(),
{
    lemma_placeholders_of_the_fixed_parts();
    lemma_placeholders_of_set_clause(m.assignments);
    let a = "UPDATE "@ + m.table;
    let b = a + " SET "@;
    let c = b + set_clause(m.assignments);
    lemma_occurrences_add("UPDATE "@, m.table, '?');
    lemma_occurrences_add(a, " SET "@, '?');
    lemma_occurrences_add(b, set_clause(m.assignments), '?');
    lemma_occurrences_add(c, " WHERE id = ?"@, '?');
}

} // verus!
