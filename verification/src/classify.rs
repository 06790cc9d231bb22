//! The field classifier: the first stage of the pipeline. It determines, for
//! each field, the mapping mode the synthesizer works from, and rejects a
//! field that declares both modifiers at once.

use vstd::prelude::*;

use crate::model::{field_conflicts, spec_mode_of, Diagnostic, DiagnosticView, FieldModel, Mode};

verus! {

/// Determines a field's mapping mode.
///
/// A field is `Embedded` when its embed modifier is set and the serialize-as
/// modifier is absent, `CustomSerialized` with the modifier's target type
/// when serialize-as is set and embed is absent, and `Direct` otherwise.
/// A field carrying both modifiers fails with `ConflictingModifiers`,
/// reported at the field's declaration; the failure is fatal for the whole
/// record.
pub fn classify(field: &FieldModel) -> (r: Result<Mode, Diagnostic>)
    ensures
        match r {
            Result::Ok(m) => !field_conflicts(field@) && m@ == spec_mode_of(field@),
            Result::Err(d) => field_conflicts(field@) && d@
                == (DiagnosticView::ConflictingModifiers { field: field@.name }),
        },
{
    match (&field.embed, &field.serialize_as) {
        (Option::Some(_), Option::Some(_)) => Result::Err(
            Diagnostic::ConflictingModifiers { field: field.name.clone() },
        ),
        (Option::Some(_), Option::None) => Result::Ok(Mode::Embedded),
        (Option::None, Option::Some(target)) => Result::Ok(
            Mode::CustomSerialized { target: target.clone() },
        ),
        (Option::None, Option::None) => Result::Ok(Mode::Direct),
    }
}

} // verus!
