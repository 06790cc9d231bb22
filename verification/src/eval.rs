//! Runtime evaluation of a direct field's value expression: what the
//! synthesized expression contributes to an INSERT once a record instance
//! supplies the field's value.

use vstd::prelude::*;

use crate::model::{ColumnRef, ColumnRefView};
use crate::plan::{ValueExpr, ValueExprView};

verus! {

/// Mathematical image of a column assignment.
#[verifier::ext_equal]
pub struct ColumnAssignmentView {
    pub column: ColumnRefView,
    pub value: Seq<char>,
}

/// One field's contribution to an INSERT statement at insertion time: the
/// resolved column and the value assigned to it.
#[derive(Debug, PartialEq, Eq)]
pub struct ColumnAssignment {
    pub column: ColumnRef,
    pub value: String,
}

impl View for ColumnAssignment {
    type V = ColumnAssignmentView;

    open spec fn view(&self) -> ColumnAssignmentView {
        ColumnAssignmentView { column: self.column@, value: self.value@ }
    }
}

impl ValueExpr {
    /// Evaluates a direct field's value expression against the field's
    /// runtime value.
    ///
    /// A plain field always has a value, so its expression always resolves
    /// to a present assignment — under borrowed access as well, where only
    /// the reference is rewrapped and the assigned value is the same. An
    /// optional field resolves to no assignment exactly when its value is
    /// unset, so that the column falls back to the table's default.
    pub fn eval_direct(&self, value: Option<&String>) -> (r: Option<ColumnAssignment>)
        requires
            self@ is SomeEq || self@ is MapEq,
            self@ is SomeEq ==> value is Some,
        ensures
            match self@ {
                ValueExprView::SomeEq { column, .. } => match r {
                    Option::Some(a) => a@ == (ColumnAssignmentView {
                        column,
                        value: value->Some_0@,
                    }),
                    Option::None => false,
                },
                ValueExprView::MapEq { column, .. } => match value {
                    Option::Some(v) => r matches Option::Some(a) && a@ == (ColumnAssignmentView {
                        column,
                        value: v@,
                    }),
                    Option::None => r is None,
                },
                _ => false,
            },
    {
        match self {
            ValueExpr::SomeEq { column, .. } => {
                let v = match value {
                    Option::Some(v) => v,
                    Option::None => {
                        // Ruled out: a plain field always supplies a value.
                        proof {
                            assert(false);
                        }
                        return Option::None;
                    },
                };
                Option::Some(ColumnAssignment { column: column.duplicate(), value: v.clone() })
            },
            ValueExpr::MapEq { column, .. } => match value {
                Option::Some(v) => Option::Some(
                    ColumnAssignment { column: column.duplicate(), value: v.clone() },
                ),
                Option::None => Option::None,
            },
            _ => {
                // Ruled out: only direct expressions are evaluated here.
                proof {
                    assert(false);
                }
                Option::None
            },
        }
    }
}

} // verus!
