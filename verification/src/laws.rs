//! Whole-record guarantees of the compiler, proved once and for all over the
//! specification-level pipeline that `derive`'s contract is stated against.

use vstd::prelude::*;

use crate::compile::{
    lemma_conflict_error_none, lemma_synth_error_none, spec_conflict_error, spec_field_artifact,
    spec_field_synth_error, spec_record_error, spec_record_plan, spec_suppressed,
};
use crate::model::{
    field_conflicts, ns_has, spec_mode_of, DiagnosticView, FieldModelView, Ownership,
    RecordModelView, TableNamespaceView,
};

verus! {

// ---------------------------------------------------------------------------
// Well-formedness: the inputs on which compilation is owed to succeed
// ---------------------------------------------------------------------------

/// A record model that compiles: it has at least one field, and every field
/// is well-formed against the namespace, recursively through embeddings.
pub open spec fn record_wf(r: RecordModelView, ns: TableNamespaceView) -> bool
    decreases r,
{
    r.fields.len() >= 1 && (forall|i: int|
        0 <= i < r.fields.len() ==> field_wf(#[trigger] r.fields[i], ns))
}

/// A field without a modifier conflict, whose embedded record — when it has
/// one — is itself well-formed, and whose name — when it maps to a column —
/// resolves in the namespace.
pub open spec fn field_wf(f: FieldModelView, ns: TableNamespaceView) -> bool
    decreases f,
{
    &&& !field_conflicts(f)
    &&& (f.embed matches Option::Some(nested) ==> record_wf(nested, ns))
    &&& (f.embed is None ==> ns_has(ns, f.name))
}

// ---------------------------------------------------------------------------
// Laws
// ---------------------------------------------------------------------------

/// Law: a well-formed record — at least one field, no modifier conflicts,
/// every directly mapped field resolvable, recursively through embeddings —
/// always compiles, and the owned tuple of its plan has exactly one artifact
/// per field, in declaration order.
pub proof fn lemma_wf_record_compiles(r: RecordModelView, ns: TableNamespaceView)
    requires
        record_wf(r, ns),
    ensures
        spec_record_error(r, ns) is None,
        spec_record_plan(r, ns).owned.len() == r.fields.len(),
    decreases r,
{
    lemma_conflict_error_none(r.fields);
    assert forall|j: int|
        0 <= j < r.fields.len() implies spec_field_synth_error(
        #[trigger] r.fields[j],
        ns,
    ) is None by {
        if r.fields[j].embed is Some {
            lemma_wf_record_compiles(r.fields[j].embed->Some_0, ns);
        }
    }
    lemma_synth_error_none(r.fields, ns);
}

/// Law: a record with no fields always fails with the empty-record
/// diagnostic, whatever else the record or its namespace declare.
pub proof fn lemma_empty_record_fails(r: RecordModelView, ns: TableNamespaceView)
    requires
        r.fields.len() == 0,
    ensures
        spec_record_error(r, ns) == Option::Some(DiagnosticView::EmptyRecord { table: r.table }),
{
}

/// Law: a field carrying both modifiers makes the whole record's compilation
/// fail with a modifier-conflict diagnostic, at whatever position the field
/// stands and whatever the other fields or the namespace hold.
pub proof fn lemma_conflict_fails(r: RecordModelView, ns: TableNamespaceView, k: int)
    requires
        0 <= k < r.fields.len(),
        field_conflicts(r.fields[k]),
    ensures
        spec_record_error(r, ns) matches Option::Some(d) && d is ConflictingModifiers,
{
    lemma_conflict_scan_finds(r.fields, k);
}

/// Law: a plan's borrowed strategy is present exactly when no field of the
/// record is custom-serialized — one such field among many suppresses it for
/// the whole record — and, when present, it has the same arity as the owned
/// tuple.
pub proof fn lemma_borrowed_presence(r: RecordModelView, ns: TableNamespaceView)
    ensures
        spec_record_plan(r, ns).borrowed is Some <==> !spec_suppressed(r),
        spec_suppressed(r) <==> exists|i: int|
            0 <= i < r.fields.len() && spec_mode_of(#[trigger] r.fields[i]) is CustomSerialized,
        spec_record_plan(r, ns).borrowed matches Option::Some(b) ==> b.len() == spec_record_plan(
            r,
            ns,
        ).owned.len(),
{
}

/// Law: a direct field's value expression is the present-assignment shape
/// exactly when its declared type is plain, and the mapped shape exactly
/// when it is optional — so, with `eval_direct`'s contract, a plain direct
/// field always contributes an assignment, and an optional one contributes
/// an assignment exactly when its runtime value is set.
pub proof fn lemma_direct_field_resolution(f: FieldModelView, ns: TableNamespaceView, mode: Ownership)
    requires
        spec_mode_of(f) is Direct,
        !field_conflicts(f),
    ensures
        f.ty is Plain <==> spec_field_artifact(f, ns, mode).value_expr is SomeEq,
        f.ty is Optional <==> spec_field_artifact(f, ns, mode).value_expr is MapEq,
{
}

// ---------------------------------------------------------------------------
// Scan lemmas
// ---------------------------------------------------------------------------

proof fn lemma_conflict_scan_finds(fields: Seq<FieldModelView>, k: int)
    requires
        0 <= k < fields.len(),
        field_conflicts(fields[k]),
    ensures
        spec_conflict_error(fields) matches Option::Some(d) && d is ConflictingModifiers,
    decreases fields.len(),
{
    if !field_conflicts(fields[0]) {
        assert(forall|j: int|
            0 <= j < fields.drop_first().len() ==> #[trigger] fields.drop_first()[j] == fields[j
                + 1]);
        lemma_conflict_scan_finds(fields.drop_first(), k - 1);
    }
}

} // verus!
