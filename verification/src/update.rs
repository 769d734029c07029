//! Sparse updates: from a list of optionally supplied fields to one
//! parameterised statement that stores exactly the supplied ones.
//!
//! Values never enter the text of a statement: each is bound, by position, to
//! a placeholder.

use vstd::prelude::*;
use vstd::string::*;
use crate::error::AuthError;
use crate::hasher::{is_digest_of, CredentialHasher};
use crate::text::{decimal, decimal_text, slice_view, text_view};

verus! {

/// One column of an update request; it takes part only where `value` is present.
#[derive(Debug)]
pub struct Field {
    pub column: String,
    pub value: Option<String>,
}

/// What a [`Field`] stands for.
pub struct FieldView {
    pub column: Seq<char>,
    pub value: Option<Seq<char>>,
}

impl View for Field {
    type V = FieldView;

    open spec fn view(&self) -> FieldView {
        FieldView {
            column: self.column@,
            value: text_view(self.value),
        }
    }
}

/// A column together with the value bound to it.
#[derive(Debug)]
pub struct Assignment {
    pub column: String,
    pub value: String,
}

/// What an [`Assignment`] stands for.
pub struct AssignmentView {
    pub column: Seq<char>,
    pub value: Seq<char>,
}

impl View for Assignment {
    type V = AssignmentView;

    open spec fn view(&self) -> AssignmentView {
        AssignmentView { column: self.column@, value: self.value@ }
    }
}

/// The fields, each by its view.
pub open spec fn field_views(fields: Seq<Field>) -> Seq<FieldView> {
    Seq::new(fields.len(), |i: int| fields[i]@)
}

/// The assignments, each by its view.
pub open spec fn assignment_views(assignments: Seq<Assignment>) -> Seq<AssignmentView> {
    Seq::new(assignments.len(), |i: int| assignments[i]@)
}

/// The assignments that a list of fields asks for: one for each field whose
/// value is present, in the order of the fields.
pub open spec fn supplied(fields: Seq<FieldView>) -> Seq<AssignmentView>
    decreases fields.len(),
{
    if fields.len() == 0 {
        Seq::empty()
    } else {
        let before = supplied(fields.drop_last());
        match fields.last().value {
            Some(v) => before.push(AssignmentView { column: fields.last().column, value: v }),
            None => before,
        }
    }
}

/// An update of one row: a non-empty list of assignments and the id of the row.
#[derive(Debug)]
pub struct Mutation {
    table: String,
    assignments: Vec<Assignment>,
    target_id: i32,
}

/// What a [`Mutation`] stands for.
pub struct MutationView {
    pub table: Seq<char>,
    pub assignments: Seq<AssignmentView>,
    pub target_id: int,
}

/// What [`PartialUpdateBuilder::build`] decides.
#[derive(Debug)]
pub enum UpdateOutcome {
    /// Nothing was supplied: there is nothing to send to the store.
    NoOp,
    /// The statement to execute.
    Apply(Mutation),
}

/// What an [`UpdateOutcome`] stands for.
pub enum UpdateOutcomeView {
    NoOp,
    Apply(MutationView),
}

/// What the caller of an update is told once it is over. Each of the three
/// is a success.
#[derive(Clone, Copy, Debug, PartialEq, Eq, Structural)]
pub enum UpdateReport {
    /// Nothing was supplied, and nothing was sent to the store.
    Unchanged,
    /// The statement ran and the store reports no row affected.
    NoRowAffected,
    /// The statement ran and the store reports the row affected.
    Stored,
}

/// What is reported for an outcome and the store's answer to its statement:
/// the number of rows affected, or `None` where the store failed. For a no-op
/// no statement was sent, and the answer is not read.
pub open spec fn report_for(outcome: UpdateOutcomeView, rows_affected: Option<u64>) -> Result<
    UpdateReport,
    AuthError,
> {
    match outcome {
        UpdateOutcomeView::NoOp => Ok(UpdateReport::Unchanged),
        UpdateOutcomeView::Apply(_) => match rows_affected {
            Some(n) => if n == 0 {
                Ok(UpdateReport::NoRowAffected)
            } else {
                Ok(UpdateReport::Stored)
            },
            None => Err(AuthError::StoreError),
        },
    }
}

/// The outcome of building an update of row `target_id` of `table` from `fields`.
pub open spec fn build_outcome(
    table: Seq<char>,
    target_id: int,
    fields: Seq<FieldView>,
) -> UpdateOutcomeView {
    let assignments = supplied(fields);
    if assignments.len() == 0 {
        UpdateOutcomeView::NoOp
    } else {
        UpdateOutcomeView::Apply(MutationView { table, assignments, target_id })
    }
}

/// The `SET` list of a statement: `column = ?` for each assignment, separated
/// by `, `. No value occurs in it.
pub open spec fn set_clause(assignments: Seq<AssignmentView>) -> Seq<char>
    decreases assignments.len(),
{
    if assignments.len() == 0 {
        Seq::empty()
    } else {
        let lead = if assignments.len() == 1 {
            Seq::empty()
        } else {
            set_clause(assignments.drop_last()) + ", "@
        };
        lead + assignments.last().column + " = ?"@
    }
}

/// The text of the statement: the assignments, then the predicate that picks
/// the row by its id. Every value is a `?`.
pub open spec fn statement_text(m: MutationView) -> Seq<char> {
    "UPDATE "@ + m.table + " SET "@ + set_clause(m.assignments) + " WHERE id = ?"@
}

/// The values bound to the placeholders of the statement, by position: the
/// value of each assignment, then the decimal numeral of the row's id.
pub open spec fn parameter_texts(m: MutationView) -> Seq<Seq<char>> {
    Seq::new(m.assignments.len(), |i: int| m.assignments[i].value).push(decimal(m.target_id))
}

/// The strings, each by its view.
pub open spec fn texts(strings: Seq<String>) -> Seq<Seq<char>> {
    Seq::new(strings.len(), |i: int| strings[i]@)
}

/// Whether `digest` is what may be stored for a credential: nothing where
/// none is supplied, else a digest of the supplied plaintext.
pub open spec fn sealed(plaintext: Option<Seq<char>>, digest: Option<Seq<char>>) -> bool {
    match (plaintext, digest) {
        (None, None) => true,
        (Some(p), Some(d)) => is_digest_of(d, p),
        _ => false,
    }
}

impl Mutation {
    #[verifier::type_invariant]
    spec fn well_formed(self) -> bool {
        self.assignments@.len() > 0
    }

    /// The table the statement updates.
    pub fn table(&self) -> (r: &str)
        ensures
            r@ == self@.table,
    {
        self.table.as_str()
    }

    /// The id of the row the statement updates.
    pub fn target_id(&self) -> (r: i32)
        ensures
            r == self@.target_id,
    {
        self.target_id
    }

    /// The assignments of the statement, in their order; there is at least one.
    pub fn assignments(&self) -> (r: &Vec<Assignment>)
        ensures
            assignment_views(r@) == self@.assignments,
            r@.len() > 0,
    {
        proof {
            use_type_invariant(self);
        }
        &self.assignments
    }

    /// The text of the statement, with a placeholder for every value.
    pub fn statement(&self) -> (r: String)
        ensures
            r@ == statement_text(self@),
    {
        let ghost a = assignment_views(self.assignments@);
        let ghost head = "UPDATE "@ + self.table@ + " SET "@;
        let mut text = String::from_str("UPDATE ");
        text.append(self.table.as_str());
        text.append(" SET ");
        let mut i: usize = 0;
        while i < self.assignments.len()
            invariant
                i <= self.assignments.len(),
                a == assignment_views(self.assignments@),
                head == "UPDATE "@ + self.table@ + " SET "@,
                text@ == head + set_clause(a.take(i as int)),
            decreases self.assignments.len() - i,
        {
            if i > 0 {
                text.append(", ");
            }
            text.append(self.assignments[i].column.as_str());
            text.append(" = ?");
            proof {
                assert(a.take(i + 1).drop_last() =~= a.take(i as int));
            }
            i += 1;
        }
        assert(a.take(i as int) =~= a);
        text.append(" WHERE id = ?");
        text
    }

    /// The values to bind, in the order of the placeholders of
    /// [`Mutation::statement`].
    pub fn parameters(&self) -> (r: Vec<String>)
        ensures
            texts(r@) == parameter_texts(self@),
    {
        let ghost a = assignment_views(self.assignments@);
        let mut values: Vec<String> = Vec::new();
        let mut i: usize = 0;
        while i < self.assignments.len()
            invariant
                i <= self.assignments.len(),
                a == assignment_views(self.assignments@),
                values@.len() == i,
                forall|k: int| 0 <= k < i ==> (#[trigger] values@[k])@ == a[k].value,
            decreases self.assignments.len() - i,
        {
            values.push(self.assignments[i].value.clone());
            i += 1;
        }
        values.push(decimal_text(self.target_id));
        values
    }
}

impl View for Mutation {
    type V = MutationView;

    closed spec fn view(&self) -> MutationView {
        MutationView {
            table: self.table@,
            assignments: assignment_views(self.assignments@),
            target_id: self.target_id as int,
        }
    }
}

impl View for UpdateOutcome {
    type V = UpdateOutcomeView;

    open spec fn view(&self) -> UpdateOutcomeView {
        match self {
            UpdateOutcome::NoOp => UpdateOutcomeView::NoOp,
            UpdateOutcome::Apply(m) => UpdateOutcomeView::Apply(m@),
        }
    }
}

impl UpdateOutcome {
    /// Whether a statement has to be sent to the store.
    pub fn is_noop(&self) -> (r: bool)
        ensures
            r == (self@ == UpdateOutcomeView::NoOp),
    {
        match self {
            UpdateOutcome::NoOp => true,
            UpdateOutcome::Apply(_) => false,
        }
    }

    /// What the caller is told, given the store's answer to the statement:
    /// the number of rows affected, or `None` where the store failed. No row
    /// affected is a success too.
    pub fn report(&self, rows_affected: Option<u64>) -> (r: Result<UpdateReport, AuthError>)
        ensures
            r == report_for(self@, rows_affected),
    {
        match self {
            UpdateOutcome::NoOp => Ok(UpdateReport::Unchanged),
            UpdateOutcome::Apply(_) => match rows_affected {
                Some(n) => if n == 0 {
                    Ok(UpdateReport::NoRowAffected)
                } else {
                    Ok(UpdateReport::Stored)
                },
                None => Err(AuthError::StoreError),
            },
        }
    }
}

/// Collects the fields of an update request and builds its statement.
#[derive(Debug)]
pub struct PartialUpdateBuilder {
    pub table: String,
    pub target_id: i32,
    pub fields: Vec<Field>,
}

impl PartialUpdateBuilder {
    /// The outcome that [`PartialUpdateBuilder::build`] gives for this builder.
    pub open spec fn outcome(self) -> UpdateOutcomeView {
        build_outcome(self.table@, self.target_id as int, field_views(self.fields@))
    }

    /// A builder for an update of row `target_id` of `table`, with no field yet.
    pub fn new(table: &str, target_id: i32) -> (r: Self)
        ensures
            r.table@ == table@,
            r.target_id == target_id,
            r.fields@.len() == 0,
    {
        PartialUpdateBuilder { table: table.to_owned(), target_id, fields: Vec::new() }
    }

    /// Adds a field after those already there. It takes part in the update
    /// only where `value` is present.
    pub fn set(&mut self, column: &str, value: Option<String>)
        ensures
            final(self).table == old(self).table,
            final(self).target_id == old(self).target_id,
            field_views(final(self).fields@) == field_views(old(self).fields@).push(
                FieldView { column: column@, value: text_view(value) },
            ),
    {
        self.fields.push(Field { column: column.to_owned(), value });
    }

    /// Adds a credential field: a plaintext that is present is hashed first,
    /// and only its digest is held and bound. Where hashing fails the builder
    /// stays as it was.
    pub fn set_secret(
        &mut self,
        hasher: &CredentialHasher,
        column: &str,
        plaintext: Option<&str>,
    ) -> (r: Result<(), AuthError>)
        ensures
            final(self).table == old(self).table,
            final(self).target_id == old(self).target_id,
            match r {
                Ok(_) => exists|digest: Option<Seq<char>>|
                    sealed(slice_view(plaintext), digest) && field_views(final(self).fields@)
                        == #[trigger] field_views(old(self).fields@).push(
                        FieldView { column: column@, value: digest },
                    ),
                Err(e) => e == AuthError::HashingFailure && plaintext is Some && final(self).fields
                    == old(self).fields,
            },
    {
        match plaintext {
            Some(p) => match hasher.hash(p) {
                Ok(digest) => {
                    self.set(column, Some(digest));
                    Ok(())
                },
                Err(_) => Err(AuthError::HashingFailure),
            },
            None => {
                self.set(column, None);
                Ok(())
            },
        }
    }

    /// Builds the update: no-op where no field is present, else the statement
    /// that assigns the present fields, in their order, to row `target_id`.
    pub fn build(self) -> (r: UpdateOutcome)
        ensures
            r@ == self.outcome(),
    {
        let ghost fields = field_views(self.fields@);
        let mut assignments: Vec<Assignment> = Vec::new();
        let mut i: usize = 0;
        while i < self.fields.len()
            invariant
                i <= self.fields.len(),
                fields == field_views(self.fields@),
                assignment_views(assignments@) =~= supplied(fields.take(i as int)),
            decreases self.fields.len() - i,
        {
            let field = &self.fields[i];
            proof {
                assert(fields.take(i + 1).drop_last() =~= fields.take(i as int));
            }
            match &field.value {
                Some(v) => {
                    assignments.push(Assignment { column: field.column.clone(), value: v.clone() });
                },
                None => {},
            }
            i += 1;
        }
        assert(fields.take(i as int) =~= fields);
        if assignments.len() == 0 {
            UpdateOutcome::NoOp
        } else {
            UpdateOutcome::Apply(
                Mutation { table: self.table, assignments, target_id: self.target_id },
            )
        }
    }
}

} // verus!
