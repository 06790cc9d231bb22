//! The assembler: one whole-record compilation pass. It validates the record,
//! classifies every field, synthesizes the per-field artifacts — recursively
//! for embedded fields — and assembles them into an insert plan, or aborts the
//! record with a single diagnostic.

use vstd::prelude::*;

use crate::classify::classify;
use crate::model::{
    field_conflicts, ns_has, spec_field_view, spec_mode_of, spec_resolve, Diagnostic,
    DiagnosticView, FieldModel,
    FieldModelView, Mode, Ownership, RecordModel, RecordModelView, TableNamespace,
    TableNamespaceView,
};
use crate::plan::{spec_artifact_view, InsertPlan, InsertPlanView, MappingArtifact, MappingArtifactView};
use crate::synth::{
    field_expr, field_expr_embed, field_expr_serialize_as, field_ty, field_ty_embed,
    field_ty_serialize_as, spec_field_expr, spec_field_expr_embed, spec_field_expr_serialize_as,
    spec_field_ty, spec_field_ty_embed, spec_field_ty_serialize_as,
};

verus! {

// ---------------------------------------------------------------------------
// The compilation, at the specification level
// ---------------------------------------------------------------------------

/// The borrowed strategy is suppressed for the whole record: some field is
/// custom-serialized, and such a field only ever produces an owned artifact.
pub open spec fn spec_suppressed(r: RecordModelView) -> bool {
    exists|i: int|
        0 <= i < r.fields.len() && spec_mode_of(#[trigger] r.fields[i]) is CustomSerialized
}

/// The first modifier-conflict diagnostic among the fields, if any.
pub open spec fn spec_conflict_error(fields: Seq<FieldModelView>) -> Option<DiagnosticView>
    decreases fields.len(),
{
    if fields.len() == 0 {
        Option::None
    } else if field_conflicts(fields[0]) {
        Option::Some(DiagnosticView::ConflictingModifiers { field: fields[0].name })
    } else {
        spec_conflict_error(fields.drop_first())
    }
}

/// The diagnostic synthesis of one conflict-free field ends with, if any: a
/// failure of the embedded record's own compilation, or an unresolvable
/// column name.
pub open spec fn spec_field_synth_error(f: FieldModelView, ns: TableNamespaceView) -> Option<
    DiagnosticView,
>
    decreases f,
{
    if f.embed is Some {
        spec_record_error(f.embed->Some_0, ns)
    } else if !ns_has(ns, f.name) {
        Option::Some(DiagnosticView::UnknownColumn { field: f.name })
    } else {
        Option::None
    }
}

/// The first synthesis diagnostic among the fields, if any.
pub open spec fn spec_synth_error(fields: Seq<FieldModelView>, ns: TableNamespaceView) -> Option<
    DiagnosticView,
>
    decreases fields,
{
    if fields.len() == 0 {
        Option::None
    } else if spec_field_synth_error(fields[0], ns) is Some {
        spec_field_synth_error(fields[0], ns)
    } else {
        spec_synth_error(fields.drop_first(), ns)
    }
}

/// The diagnostic a record's compilation ends with, if any. A record with no
/// fields is rejected outright; then the classifier runs over every field,
/// and a modifier conflict aborts the record; then synthesis runs, and its
/// first failure aborts the record.
pub open spec fn spec_record_error(r: RecordModelView, ns: TableNamespaceView) -> Option<
    DiagnosticView,
>
    decreases r,
{
    if r.fields.len() == 0 {
        Option::Some(DiagnosticView::EmptyRecord { table: r.table })
    } else if spec_conflict_error(r.fields) is Some {
        spec_conflict_error(r.fields)
    } else {
        spec_synth_error(r.fields, ns)
    }
}

/// The mapping artifact of one conflict-free field, for one ownership mode,
/// as the synthesizer builds it. Meaningful when the field synthesizes
/// without a diagnostic, and, for a custom-serialized field, under owned
/// access only.
pub open spec fn spec_field_artifact(
    f: FieldModelView,
    ns: TableNamespaceView,
    mode: Ownership,
) -> MappingArtifactView
    decreases f,
{
    if f.embed is Some {
        MappingArtifactView {
            value_type: spec_field_ty_embed(f, mode),
            value_expr: spec_field_expr_embed(f, mode),
            nested: Option::Some(spec_record_plan(f.embed->Some_0, ns)),
        }
    } else if f.serialize_as is Some {
        MappingArtifactView {
            value_type: spec_field_ty_serialize_as(
                f,
                spec_resolve(ns, f.name),
                f.serialize_as->Some_0,
            ),
            value_expr: spec_field_expr_serialize_as(
                f,
                spec_resolve(ns, f.name),
                f.serialize_as->Some_0,
            ),
            nested: Option::None,
        }
    } else {
        MappingArtifactView {
            value_type: spec_field_ty(f, spec_resolve(ns, f.name), mode),
            value_expr: spec_field_expr(f, spec_resolve(ns, f.name), mode),
            nested: Option::None,
        }
    }
}

/// The insert plan of a record that compiles without a diagnostic: the owned
/// artifacts of all fields in declaration order, and, unless the borrowed
/// strategy is suppressed, the borrowed artifacts in the same order.
pub open spec fn spec_record_plan(r: RecordModelView, ns: TableNamespaceView) -> InsertPlanView
    decreases r,
{
    InsertPlanView {
        owned: Seq::new(
            r.fields.len(),
            |i: int|
                if 0 <= i < r.fields.len() {
                    spec_field_artifact(r.fields[i], ns, Ownership::Owned)
                } else {
                    arbitrary()
                },
        ),
        borrowed: if spec_suppressed(r) {
            Option::None
        } else {
            Option::Some(
                Seq::new(
                    r.fields.len(),
                    |i: int|
                        if 0 <= i < r.fields.len() {
                            spec_field_artifact(r.fields[i], ns, Ownership::Borrowed)
                        } else {
                            arbitrary()
                        },
                ),
            )
        },
    }
}

// ---------------------------------------------------------------------------
// Lemmas connecting the first-error scans to per-field facts
// ---------------------------------------------------------------------------

pub(crate) proof fn lemma_conflict_error_none(fields: Seq<FieldModelView>)
    requires
        forall|j: int| 0 <= j < fields.len() ==> !field_conflicts(#[trigger] fields[j]),
    ensures
        spec_conflict_error(fields) is None,
    decreases fields.len(),
{
    if fields.len() > 0 {
        assert(forall|j: int|
            0 <= j < fields.drop_first().len() ==> #[trigger] fields.drop_first()[j] == fields[j
                + 1]);
        lemma_conflict_error_none(fields.drop_first());
    }
}

proof fn lemma_conflict_error_at(fields: Seq<FieldModelView>, k: int)
    requires
        0 <= k < fields.len(),
        field_conflicts(fields[k]),
        forall|j: int| 0 <= j < k ==> !field_conflicts(#[trigger] fields[j]),
    ensures
        spec_conflict_error(fields) == Option::Some(
            DiagnosticView::ConflictingModifiers { field: fields[k].name },
        ),
    decreases k,
{
    if k > 0 {
        assert(forall|j: int|
            0 <= j < fields.drop_first().len() ==> #[trigger] fields.drop_first()[j] == fields[j
                + 1]);
        lemma_conflict_error_at(fields.drop_first(), k - 1);
    }
}

pub(crate) proof fn lemma_synth_error_none(fields: Seq<FieldModelView>, ns: TableNamespaceView)
    requires
        forall|j: int|
            0 <= j < fields.len() ==> spec_field_synth_error(#[trigger] fields[j], ns) is None,
    ensures
        spec_synth_error(fields, ns) is None,
    decreases fields.len(),
{
    if fields.len() > 0 {
        assert(forall|j: int|
            0 <= j < fields.drop_first().len() ==> #[trigger] fields.drop_first()[j] == fields[j
                + 1]);
        lemma_synth_error_none(fields.drop_first(), ns);
    }
}

// ---------------------------------------------------------------------------
// The compilation, executable
// ---------------------------------------------------------------------------

/// Synthesizes the mapping artifact of one conflict-free field for one
/// ownership mode, compiling an embedded record recursively. A failure of
/// the embedded compilation, or an unresolvable column name, aborts with its
/// diagnostic.
fn build_artifact(field: &FieldModel, ns: &TableNamespace, mode: Ownership) -> (r: Result<
    MappingArtifact,
    Diagnostic,
>)
    requires
        !field_conflicts(field@),
        spec_mode_of(field@) is CustomSerialized ==> mode is Owned,
    ensures
        match r {
            Result::Ok(a) => spec_field_synth_error(field@, ns@) is None && a@
                == spec_field_artifact(field@, ns@, mode),
            Result::Err(d) => spec_field_synth_error(field@, ns@) == Option::Some(d@),
        },
    decreases *field,
{
    match &field.embed {
        Option::Some(nested) => {
            let plan = match derive(nested, ns) {
                Result::Ok(p) => p,
                Result::Err(d) => {
                    return Result::Err(d);
                },
            };
            Result::Ok(
                MappingArtifact {
                    value_type: field_ty_embed(field, mode),
                    value_expr: field_expr_embed(field, mode),
                    nested: Option::Some(Box::new(plan)),
                },
            )
        },
        Option::None => {
            let column = match ns.resolve(&field.name) {
                Result::Ok(c) => c,
                Result::Err(d) => {
                    return Result::Err(d);
                },
            };
            match &field.serialize_as {
                Option::Some(target) => Result::Ok(
                    MappingArtifact {
                        value_type: field_ty_serialize_as(field, &column, target),
                        value_expr: field_expr_serialize_as(field, &column, target),
                        nested: Option::None,
                    },
                ),
                Option::None => Result::Ok(
                    MappingArtifact {
                        value_type: field_ty(field, &column, mode),
                        value_expr: field_expr(field, &column, mode),
                        nested: Option::None,
                    },
                ),
            }
        },
    }
}

/// Compiles one record model against the table namespace: the insert plan
/// described by `spec_record_plan`, or the first diagnostic described by
/// `spec_record_error`.
pub fn derive(record: &RecordModel, ns: &TableNamespace) -> (r: Result<InsertPlan, Diagnostic>)
    ensures
        match r {
            Result::Ok(plan) => spec_record_error(record@, ns@) is None && plan@
                == spec_record_plan(record@, ns@),
            Result::Err(d) => spec_record_error(record@, ns@) == Option::Some(d@),
        },
    decreases *record,
{
    if record.fields.len() == 0 {
        return Result::Err(Diagnostic::EmptyRecord { table: record.table.clone() });
    }
    // Stage one: classify every field. A modifier conflict aborts the whole
    // record; the suppression of the borrowed strategy is decided here, once,
    // before any artifact is built.
    let mut suppress = false;
    let mut i: usize = 0;
    while i < record.fields.len()
        invariant
            i <= record.fields.len(),
            forall|j: int| 0 <= j < i ==> !field_conflicts(#[trigger] record@.fields[j]),
            suppress == exists|j: int|
                0 <= j < i && spec_mode_of(#[trigger] record@.fields[j]) is CustomSerialized,
        decreases record.fields.len() - i,
    {
        proof {
            assert(record@.fields[i as int] == spec_field_view(record.fields@[i as int]));
        }
        match classify(&record.fields[i]) {
            Result::Ok(m) => {
                match m {
                    Mode::CustomSerialized { .. } => {
                        proof {
                            assert(spec_mode_of(record@.fields[i as int]) is CustomSerialized);
                        }
                        suppress = true;
                    },
                    _ => {
                        proof {
                            assert(!(spec_mode_of(
                                record@.fields[i as int],
                            ) is CustomSerialized));
                        }
                    },
                }
            },
            Result::Err(d) => {
                proof {
                    lemma_conflict_error_at(record@.fields, i as int);
                }
                return Result::Err(d);
            },
        }
        i += 1;
    }
    proof {
        assert(suppress == spec_suppressed(record@));
        lemma_conflict_error_none(record@.fields);
    }
    // Stage two: synthesize the owned artifact of every field, in
    // declaration order.
    let mut owned: Vec<MappingArtifact> = Vec::new();
    i = 0;
    while i < record.fields.len()
        invariant
            i <= record.fields.len(),
            owned@.len() == i,
            suppress == spec_suppressed(record@),
            spec_conflict_error(record@.fields) is None,
            forall|j: int|
                0 <= j < record@.fields.len() ==> !field_conflicts(#[trigger] record@.fields[j]),
            suppress == false ==> forall|j: int|
                0 <= j < record@.fields.len() ==> !(spec_mode_of(
                    #[trigger] record@.fields[j],
                ) is CustomSerialized),
            forall|j: int|
                0 <= j < i ==> spec_field_synth_error(
                    #[trigger] record@.fields[j],
                    ns@,
                ) is None,
            forall|j: int|
                0 <= j < i ==> spec_artifact_view(#[trigger] owned@[j])
                    == spec_field_artifact(record@.fields[j], ns@, Ownership::Owned),
        decreases record.fields.len() - i,
    {
        proof {
            assert(record@.fields[i as int] == spec_field_view(record.fields@[i as int]));
        }
        match build_artifact(&record.fields[i], ns, Ownership::Owned) {
            Result::Ok(a) => {
                owned.push(a);
            },
            Result::Err(d) => {
                proof {
                    lemma_synth_error_at(record@.fields, ns@, i as int);
                }
                return Result::Err(d);
            },
        }
        i += 1;
    }
    // Stage three: the borrowed artifacts, in the same order, unless the
    // borrowed strategy is suppressed for the record.
    let borrowed_tuple: Option<Vec<MappingArtifact>>;
    if suppress {
        borrowed_tuple = Option::None;
    } else {
        let mut bor: Vec<MappingArtifact> = Vec::new();
        i = 0;
        while i < record.fields.len()
            invariant
                i <= record.fields.len(),
                bor@.len() == i,
                suppress == false,
                suppress == spec_suppressed(record@),
                forall|j: int|
                    0 <= j < record@.fields.len() ==> !field_conflicts(
                        #[trigger] record@.fields[j],
                    ),
                forall|j: int|
                    0 <= j < record@.fields.len() ==> !(spec_mode_of(
                        #[trigger] record@.fields[j],
                    ) is CustomSerialized),
                forall|j: int|
                    0 <= j < record@.fields.len() ==> spec_field_synth_error(
                        #[trigger] record@.fields[j],
                        ns@,
                    ) is None,
                forall|j: int|
                    0 <= j < i ==> spec_artifact_view(#[trigger] bor@[j])
                        == spec_field_artifact(record@.fields[j], ns@, Ownership::Borrowed),
            decreases record.fields.len() - i,
        {
            proof {
                assert(record@.fields[i as int] == spec_field_view(record.fields@[i as int]));
            }
            match build_artifact(&record.fields[i], ns, Ownership::Borrowed) {
                Result::Ok(a) => {
                    bor.push(a);
                },
                Result::Err(d) => {
                    // A field whose owned artifact was synthesized cannot
                    // fail borrowed synthesis: the diagnostics do not depend
                    // on the ownership mode.
                    proof {
                        assert(false);
                    }
                    return Result::Err(d);
                },
            }
            i += 1;
        }
        borrowed_tuple = Option::Some(bor);
    }
    let result = InsertPlan { owned, borrowed: borrowed_tuple };
    proof {
        lemma_synth_error_none(record@.fields, ns@);
        let target = spec_record_plan(record@, ns@);
        assert(result@.owned =~= target.owned);
        if !suppress {
            assert(result@.borrowed->Some_0 =~= target.borrowed->Some_0);
        }
        assert(result@ =~= target);
    }
    Result::Ok(result)
}

proof fn lemma_synth_error_at(fields: Seq<FieldModelView>, ns: TableNamespaceView, k: int)
    requires
        0 <= k < fields.len(),
        spec_field_synth_error(fields[k], ns) is Some,
        forall|j: int|
            0 <= j < k ==> spec_field_synth_error(#[trigger] fields[j], ns) is None,
    ensures
        spec_synth_error(fields, ns) == spec_field_synth_error(fields[k], ns),
    decreases k,
{
    if k > 0 {
        assert(forall|j: int|
            0 <= j < fields.drop_first().len() ==> #[trigger] fields.drop_first()[j] == fields[j
                + 1]);
        lemma_synth_error_at(fields.drop_first(), ns, k - 1);
    }
}

} // verus!
