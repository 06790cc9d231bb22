//! The mapping synthesizer: for a classified field and a requested ownership
//! mode, produces the value type and the value expression of the field's
//! column assignment.

use vstd::prelude::*;

use crate::model::{
    spec_inner_type, ColumnRef, ColumnRefView, FieldModel, FieldModelView, Ownership,
};
use crate::plan::{ValueExpr, ValueExprView, ValueTypeExpr, ValueTypeExprView};

verus! {

// ---------------------------------------------------------------------------
// Spec-level synthesis
// ---------------------------------------------------------------------------

/// The value type of an embedded field: the field's own type, behind a
/// reference under borrowed access.
pub open spec fn spec_field_ty_embed(f: FieldModelView, mode: Ownership) -> ValueTypeExprView {
    match mode {
        Ownership::Owned => ValueTypeExprView::FieldType { ty: f.ty },
        Ownership::Borrowed => ValueTypeExprView::RefFieldType { ty: f.ty },
    }
}

/// The value expression of an embedded field: move the field out of the
/// record, or borrow it.
pub open spec fn spec_field_expr_embed(f: FieldModelView, mode: Ownership) -> ValueExprView {
    match mode {
        Ownership::Owned => ValueExprView::MoveField { field: f.name },
        Ownership::Borrowed => ValueExprView::BorrowField { field: f.name },
    }
}

/// The value type of a direct field: an optional column assignment of the
/// declared type's inner value type, borrowed under borrowed access.
pub open spec fn spec_field_ty(
    f: FieldModelView,
    c: ColumnRefView,
    mode: Ownership,
) -> ValueTypeExprView {
    ValueTypeExprView::OptionAssignment {
        column: c,
        value_ty: spec_inner_type(f.ty),
        borrowed: mode is Borrowed,
    }
}

/// The value expression of a direct field: a present assignment for a plain
/// declared type, a mapped assignment for an optional one.
pub open spec fn spec_field_expr(
    f: FieldModelView,
    c: ColumnRefView,
    mode: Ownership,
) -> ValueExprView {
    if f.ty is Optional {
        ValueExprView::MapEq { column: c, field: f.name, borrowed: mode is Borrowed }
    } else {
        ValueExprView::SomeEq { column: c, field: f.name, borrowed: mode is Borrowed }
    }
}

/// The value type of a custom-serialized field: an optional column assignment
/// of the conversion's target type, only ever owned.
pub open spec fn spec_field_ty_serialize_as(
    f: FieldModelView,
    c: ColumnRefView,
    target: Seq<char>,
) -> ValueTypeExprView {
    ValueTypeExprView::OptionAssignment { column: c, value_ty: target, borrowed: false }
}

/// The value expression of a custom-serialized field: the field's value
/// converted into the target type, mapped when the declared type is optional.
pub open spec fn spec_field_expr_serialize_as(
    f: FieldModelView,
    c: ColumnRefView,
    target: Seq<char>,
) -> ValueExprView {
    if f.ty is Optional {
        ValueExprView::MapEqInto { column: c, field: f.name, target }
    } else {
        ValueExprView::SomeEqInto { column: c, field: f.name, target }
    }
}

// ---------------------------------------------------------------------------
// Executable synthesis
// ---------------------------------------------------------------------------

/// The value type contributed by an embedded field.
pub fn field_ty_embed(field: &FieldModel, mode: Ownership) -> (r: ValueTypeExpr)
    ensures
        r@ == spec_field_ty_embed(field@, mode),
{
    match mode {
        Ownership::Owned => ValueTypeExpr::FieldType { ty: field.ty.duplicate() },
        Ownership::Borrowed => ValueTypeExpr::RefFieldType { ty: field.ty.duplicate() },
    }
}

/// The value expression contributed by an embedded field.
pub fn field_expr_embed(field: &FieldModel, mode: Ownership) -> (r: ValueExpr)
    ensures
        r@ == spec_field_expr_embed(field@, mode),
{
    match mode {
        Ownership::Owned => ValueExpr::MoveField { field: field.name.clone() },
        Ownership::Borrowed => ValueExpr::BorrowField { field: field.name.clone() },
    }
}

/// The value type contributed by a direct field mapped to `column`.
pub fn field_ty(field: &FieldModel, column: &ColumnRef, mode: Ownership) -> (r: ValueTypeExpr)
    ensures
        r@ == spec_field_ty(field@, column@, mode),
{
    let borrowed = match mode {
        Ownership::Owned => false,
        Ownership::Borrowed => true,
    };
    ValueTypeExpr::OptionAssignment {
        column: column.duplicate(),
        value_ty: field.ty.inner_type().clone(),
        borrowed,
    }
}

/// The value expression contributed by a direct field mapped to `column`.
///
/// A plain field always yields a present assignment, also under borrowed
/// access, so that the tuple arity stays uniform across the two strategies;
/// an optional field yields an assignment exactly when its value is set.
pub fn field_expr(field: &FieldModel, column: &ColumnRef, mode: Ownership) -> (r: ValueExpr)
    ensures
        r@ == spec_field_expr(field@, column@, mode),
{
    let borrowed = match mode {
        Ownership::Owned => false,
        Ownership::Borrowed => true,
    };
    if field.ty.is_optional() {
        ValueExpr::MapEq { column: column.duplicate(), field: field.name.clone(), borrowed }
    } else {
        ValueExpr::SomeEq { column: column.duplicate(), field: field.name.clone(), borrowed }
    }
}

/// The value type contributed by a custom-serialized field mapped to
/// `column`, with conversion target `target`.
pub fn field_ty_serialize_as(field: &FieldModel, column: &ColumnRef, target: &String) -> (r:
    ValueTypeExpr)
    ensures
        r@ == spec_field_ty_serialize_as(field@, column@, target@),
{
    ValueTypeExpr::OptionAssignment {
        column: column.duplicate(),
        value_ty: target.clone(),
        borrowed: false,
    }
}

/// The value expression contributed by a custom-serialized field mapped to
/// `column`, with conversion target `target`.
pub fn field_expr_serialize_as(field: &FieldModel, column: &ColumnRef, target: &String) -> (r:
    ValueExpr)
    ensures
        r@ == spec_field_expr_serialize_as(field@, column@, target@),
{
    if field.ty.is_optional() {
        ValueExpr::MapEqInto {
            column: column.duplicate(),
            field: field.name.clone(),
            target: target.clone(),
        }
    } else {
        ValueExpr::SomeEqInto {
            column: column.duplicate(),
            field: field.name.clone(),
            target: target.clone(),
        }
    }
}

} // verus!
