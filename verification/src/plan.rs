//! The output side of the compiler: per-field mapping artifacts and the
//! insert plan that assembles them.

use vstd::prelude::*;

use crate::model::{ColumnRef, ColumnRefView, DeclaredType, DeclaredTypeView};

verus! {

// ---------------------------------------------------------------------------
// Spec-level views
// ---------------------------------------------------------------------------

/// Mathematical image of a value-type expression.
#[verifier::ext_equal]
pub enum ValueTypeExprView {
    FieldType { ty: DeclaredTypeView },
    RefFieldType { ty: DeclaredTypeView },
    OptionAssignment { column: ColumnRefView, value_ty: Seq<char>, borrowed: bool },
}

/// Mathematical image of a value expression.
#[verifier::ext_equal]
pub enum ValueExprView {
    MoveField { field: Seq<char> },
    BorrowField { field: Seq<char> },
    SomeEq { column: ColumnRefView, field: Seq<char>, borrowed: bool },
    MapEq { column: ColumnRefView, field: Seq<char>, borrowed: bool },
    SomeEqInto { column: ColumnRefView, field: Seq<char>, target: Seq<char> },
    MapEqInto { column: ColumnRefView, field: Seq<char>, target: Seq<char> },
}

/// Mathematical image of a mapping artifact.
#[verifier::ext_equal]
pub struct MappingArtifactView {
    pub value_type: ValueTypeExprView,
    pub value_expr: ValueExprView,
    pub nested: Option<InsertPlanView>,
}

/// Mathematical image of an insert plan.
#[verifier::ext_equal]
pub struct InsertPlanView {
    pub owned: Seq<MappingArtifactView>,
    pub borrowed: Option<Seq<MappingArtifactView>>,
}

// ---------------------------------------------------------------------------
// Executable output model
// ---------------------------------------------------------------------------

/// The static type of the column assignment a field contributes, for one
/// ownership mode.
#[derive(Debug, PartialEq, Eq)]
pub enum ValueTypeExpr {
    /// An embedded field under owned access: the field's own type, which
    /// delegates to the embedded record's mapping.
    FieldType { ty: DeclaredType },
    /// An embedded field under borrowed access: a reference to the field's
    /// own type.
    RefFieldType { ty: DeclaredType },
    /// A direct or custom-serialized field: an optional column assignment,
    /// so that an absent value contributes no assignment at all while the
    /// tuple arity stays fixed. `value_ty` is the type of the assigned
    /// value and `borrowed` says whether it is taken by reference.
    OptionAssignment { column: ColumnRef, value_ty: String, borrowed: bool },
}

/// The runtime expression producing a field's column assignment from a record
/// instance, for one ownership mode.
#[derive(Debug, PartialEq, Eq)]
pub enum ValueExpr {
    /// Move the field out of the record (embedded, owned).
    MoveField { field: String },
    /// Borrow the field from the record (embedded, borrowed).
    BorrowField { field: String },
    /// A plain direct field: a present assignment of the field's value,
    /// taken by reference when `borrowed`.
    SomeEq { column: ColumnRef, field: String, borrowed: bool },
    /// An optional direct field: map the field's value, when set, to an
    /// assignment; `borrowed` says whether the value is first borrowed.
    MapEq { column: ColumnRef, field: String, borrowed: bool },
    /// A plain custom-serialized field: a present assignment of the field's
    /// value converted into the target type.
    SomeEqInto { column: ColumnRef, field: String, target: String },
    /// An optional custom-serialized field: map the field's value, when set,
    /// through the conversion into the target type.
    MapEqInto { column: ColumnRef, field: String, target: String },
}

/// One field's contribution to an insertion strategy: the static type of its
/// column assignment and the expression producing it. An embedded field also
/// carries the insert plan of the embedded record, compiled recursively.
#[derive(Debug, PartialEq, Eq)]
pub struct MappingArtifact {
    pub value_type: ValueTypeExpr,
    pub value_expr: ValueExpr,
    pub nested: Option<Box<InsertPlan>>,
}

/// The assembled output of one record compilation: the owned tuple of
/// mapping artifacts, in field declaration order, and the borrowed tuple,
/// absent exactly when any field of the record is custom-serialized.
#[derive(Debug, PartialEq, Eq)]
pub struct InsertPlan {
    pub owned: Vec<MappingArtifact>,
    pub borrowed: Option<Vec<MappingArtifact>>,
}

// ---------------------------------------------------------------------------
// View functions
// ---------------------------------------------------------------------------

pub open spec fn spec_artifact_view(a: MappingArtifact) -> MappingArtifactView
    decreases a,
{
    MappingArtifactView {
        value_type: a.value_type@,
        value_expr: a.value_expr@,
        nested: match a.nested {
            Option::Some(p) => Option::Some(spec_plan_view(*p)),
            Option::None => Option::None,
        },
    }
}

pub open spec fn spec_plan_view(p: InsertPlan) -> InsertPlanView
    decreases p,
{
    InsertPlanView {
        owned: Seq::new(
            p.owned@.len(),
            |i: int|
                if 0 <= i < p.owned@.len() {
                    spec_artifact_view(p.owned@[i])
                } else {
                    arbitrary()
                },
        ),
        borrowed: match p.borrowed {
            Option::Some(tuple) => Option::Some(
                Seq::new(
                    tuple@.len(),
                    |i: int|
                        if 0 <= i < tuple@.len() {
                            spec_artifact_view(tuple@[i])
                        } else {
                            arbitrary()
                        },
                ),
            ),
            Option::None => Option::None,
        },
    }
}

impl View for ValueTypeExpr {
    type V = ValueTypeExprView;

    open spec fn view(&self) -> ValueTypeExprView {
        match *self {
            ValueTypeExpr::FieldType { ty } => ValueTypeExprView::FieldType { ty: ty@ },
            ValueTypeExpr::RefFieldType { ty } => ValueTypeExprView::RefFieldType { ty: ty@ },
            ValueTypeExpr::OptionAssignment { column, value_ty, borrowed } => {
                ValueTypeExprView::OptionAssignment {
                    column: column@,
                    value_ty: value_ty@,
                    borrowed,
                }
            },
        }
    }
}

impl View for ValueExpr {
    type V = ValueExprView;

    open spec fn view(&self) -> ValueExprView {
        match *self {
            ValueExpr::MoveField { field } => ValueExprView::MoveField { field: field@ },
            ValueExpr::BorrowField { field } => ValueExprView::BorrowField { field: field@ },
            ValueExpr::SomeEq { column, field, borrowed } => ValueExprView::SomeEq {
                column: column@,
                field: field@,
                borrowed,
            },
            ValueExpr::MapEq { column, field, borrowed } => ValueExprView::MapEq {
                column: column@,
                field: field@,
                borrowed,
            },
            ValueExpr::SomeEqInto { column, field, target } => ValueExprView::SomeEqInto {
                column: column@,
                field: field@,
                target: target@,
            },
            ValueExpr::MapEqInto { column, field, target } => ValueExprView::MapEqInto {
                column: column@,
                field: field@,
                target: target@,
            },
        }
    }
}

impl View for MappingArtifact {
    type V = MappingArtifactView;

    open spec fn view(&self) -> MappingArtifactView {
        spec_artifact_view(*self)
    }
}

impl View for InsertPlan {
    type V = InsertPlanView;

    open spec fn view(&self) -> InsertPlanView {
        spec_plan_view(*self)
    }
}

impl InsertPlan {
    /// The number of artifacts in the owned tuple: the plan's arity.
    pub fn owned_arity(&self) -> (r: usize)
        ensures
            r == self@.owned.len(),
    {
        self.owned.len()
    }

    /// Whether the borrowed insertion strategy is present.
    pub fn has_borrowed(&self) -> (r: bool)
        ensures
            r == (self@.borrowed is Some),
    {
        self.borrowed.is_some()
    }
}

} // verus!
