//! The input side of the compiler: field and record models, the table
//! namespace, and the diagnostics a compilation can end with.

use vstd::prelude::*;

verus! {

// ---------------------------------------------------------------------------
// Spec-level views
// ---------------------------------------------------------------------------

/// Mathematical image of a declared field type: either a plain type or an
/// optional wrapper around an inner type, both identified by name.
#[verifier::ext_equal]
pub enum DeclaredTypeView {
    Plain { name: Seq<char> },
    Optional { inner: Seq<char> },
}

/// Mathematical image of one field declaration.
#[verifier::ext_equal]
pub struct FieldModelView {
    pub name: Seq<char>,
    pub ty: DeclaredTypeView,
    pub embed: Option<RecordModelView>,
    pub serialize_as: Option<Seq<char>>,
}

/// Mathematical image of a record model: the record's type identity, its
/// target table, and its fields in declaration order.
#[verifier::ext_equal]
pub struct RecordModelView {
    pub name: Seq<char>,
    pub table: Seq<char>,
    pub fields: Seq<FieldModelView>,
}

/// Mathematical image of the table namespace.
#[verifier::ext_equal]
pub struct TableNamespaceView {
    pub table: Seq<char>,
    pub columns: Seq<Seq<char>>,
}

/// Mathematical image of a resolved column reference.
#[verifier::ext_equal]
pub struct ColumnRefView {
    pub table: Seq<char>,
    pub column: Seq<char>,
}

/// Mathematical image of a diagnostic.
#[verifier::ext_equal]
pub enum DiagnosticView {
    EmptyRecord { table: Seq<char> },
    ConflictingModifiers { field: Seq<char> },
    UnknownColumn { field: Seq<char> },
}

/// Mathematical image of a field's mapping mode.
#[verifier::ext_equal]
pub enum ModeView {
    Embedded,
    CustomSerialized { target: Seq<char> },
    Direct,
}

// ---------------------------------------------------------------------------
// Executable input model
// ---------------------------------------------------------------------------

/// The declared type of a field: a plain type `T`, or an optional wrapper
/// around an inner type `T`. Types are identified by name; the compiler never
/// inspects them beyond this shape.
#[derive(Debug, PartialEq, Eq)]
pub enum DeclaredType {
    Plain { name: String },
    Optional { inner: String },
}

/// One field declaration of a record: its name (used both for column lookup
/// and instance access), its declared type, and its modifiers.
///
/// The two modifiers are mutually exclusive; a field carrying both is a
/// validation error. The `embed` modifier carries the record model of the
/// embedded type, so that its mapping can be compiled recursively.
#[derive(Debug, PartialEq, Eq)]
pub struct FieldModel {
    pub name: String,
    pub ty: DeclaredType,
    pub embed: Option<Box<RecordModel>>,
    pub serialize_as: Option<String>,
}

/// The full description of one record type: its type identity, the identifier
/// of its target table, and its fields in declaration order.
#[derive(Debug, PartialEq, Eq)]
pub struct RecordModel {
    pub name: String,
    pub table: String,
    pub fields: Vec<FieldModel>,
}

/// The table namespace: the registry of column names of the target table,
/// against which field names are resolved.
#[derive(Debug, PartialEq, Eq)]
pub struct TableNamespace {
    pub table: String,
    pub columns: Vec<String>,
}

/// A (table, column) pair resolved by matching a field's name against the
/// table namespace.
#[derive(Debug, PartialEq, Eq)]
pub struct ColumnRef {
    pub table: String,
    pub column: String,
}

/// A compilation diagnostic. Every diagnostic is fatal for the whole record:
/// no partial output is produced.
#[derive(Debug, PartialEq, Eq)]
pub enum Diagnostic {
    /// The record has no fields. Remedy: use a table-level default-values
    /// insertion instead of deriving a field mapping.
    EmptyRecord { table: String },
    /// A field declares both the embed and the serialize-as modifier.
    ConflictingModifiers { field: String },
    /// A field's name does not resolve in the table namespace.
    UnknownColumn { field: String },
}

/// The mapping mode of a field, determined by the classifier.
#[derive(Debug, PartialEq, Eq)]
pub enum Mode {
    /// The field's type is itself a record, compiled recursively.
    Embedded,
    /// The field's stored representation is the named target type, obtained
    /// by an explicit conversion.
    CustomSerialized { target: String },
    /// The field maps directly to one column assignment.
    Direct,
}

/// The two insertion strategies an artifact can be synthesized for.
#[derive(Clone, Copy, Debug, PartialEq, Eq)]
pub enum Ownership {
    Owned,
    Borrowed,
}

// ---------------------------------------------------------------------------
// View functions
// ---------------------------------------------------------------------------

pub open spec fn spec_field_view(f: FieldModel) -> FieldModelView
    decreases f,
{
    FieldModelView {
        name: f.name@,
        ty: f.ty@,
        embed: match f.embed {
            Option::Some(b) => Option::Some(spec_record_view(*b)),
            Option::None => Option::None,
        },
        serialize_as: match f.serialize_as {
            Option::Some(s) => Option::Some(s@),
            Option::None => Option::None,
        },
    }
}

pub open spec fn spec_record_view(r: RecordModel) -> RecordModelView
    decreases r,
{
    RecordModelView {
        name: r.name@,
        table: r.table@,
        fields: Seq::new(
            r.fields@.len(),
            |i: int|
                if 0 <= i < r.fields@.len() {
                    spec_field_view(r.fields@[i])
                } else {
                    arbitrary()
                },
        ),
    }
}

impl View for DeclaredType {
    type V = DeclaredTypeView;

    open spec fn view(&self) -> DeclaredTypeView {
        match *self {
            DeclaredType::Plain { name } => DeclaredTypeView::Plain { name: name@ },
            DeclaredType::Optional { inner } => DeclaredTypeView::Optional { inner: inner@ },
        }
    }
}

impl View for FieldModel {
    type V = FieldModelView;

    open spec fn view(&self) -> FieldModelView {
        spec_field_view(*self)
    }
}

impl View for RecordModel {
    type V = RecordModelView;

    open spec fn view(&self) -> RecordModelView {
        spec_record_view(*self)
    }
}

impl View for TableNamespace {
    type V = TableNamespaceView;

    open spec fn view(&self) -> TableNamespaceView {
        TableNamespaceView {
            table: self.table@,
            columns: Seq::new(self.columns@.len(), |i: int| self.columns@[i]@),
        }
    }
}

impl View for ColumnRef {
    type V = ColumnRefView;

    open spec fn view(&self) -> ColumnRefView {
        ColumnRefView { table: self.table@, column: self.column@ }
    }
}

impl View for Diagnostic {
    type V = DiagnosticView;

    open spec fn view(&self) -> DiagnosticView {
        match *self {
            Diagnostic::EmptyRecord { table } => DiagnosticView::EmptyRecord { table: table@ },
            Diagnostic::ConflictingModifiers { field } => DiagnosticView::ConflictingModifiers {
                field: field@,
            },
            Diagnostic::UnknownColumn { field } => DiagnosticView::UnknownColumn { field: field@ },
        }
    }
}

impl View for Mode {
    type V = ModeView;

    open spec fn view(&self) -> ModeView {
        match *self {
            Mode::Embedded => ModeView::Embedded,
            Mode::CustomSerialized { target } => ModeView::CustomSerialized { target: target@ },
            Mode::Direct => ModeView::Direct,
        }
    }
}

// ---------------------------------------------------------------------------
// Basic spec functions on the model
// ---------------------------------------------------------------------------

/// A field carries both modifiers at once: the one shape the classifier
/// rejects.
pub open spec fn field_conflicts(f: FieldModelView) -> bool {
    f.embed is Some && f.serialize_as is Some
}

/// The mapping mode of a conflict-free field.
pub open spec fn spec_mode_of(f: FieldModelView) -> ModeView {
    if f.embed is Some {
        ModeView::Embedded
    } else if f.serialize_as is Some {
        ModeView::CustomSerialized { target: f.serialize_as->Some_0 }
    } else {
        ModeView::Direct
    }
}

/// The inner value type a direct field contributes: the inner type of an
/// optional declared type, or the plain type itself.
pub open spec fn spec_inner_type(ty: DeclaredTypeView) -> Seq<char> {
    match ty {
        DeclaredTypeView::Plain { name } => name,
        DeclaredTypeView::Optional { inner } => inner,
    }
}

/// The namespace contains a column of the given name.
pub open spec fn ns_has(ns: TableNamespaceView, name: Seq<char>) -> bool {
    exists|i: int| 0 <= i < ns.columns.len() && ns.columns[i] == name
}

/// The column reference a field name resolves to, when the namespace has it.
pub open spec fn spec_resolve(ns: TableNamespaceView, name: Seq<char>) -> ColumnRefView {
    ColumnRefView { table: ns.table, column: name }
}

// ---------------------------------------------------------------------------
// Executable model operations
// ---------------------------------------------------------------------------

impl DeclaredType {
    /// Whether the declared type is the optional wrapper.
    pub fn is_optional(&self) -> (r: bool)
        ensures
            r == (self@ is Optional),
    {
        match self {
            DeclaredType::Plain { .. } => false,
            DeclaredType::Optional { .. } => true,
        }
    }

    /// The inner value type: the wrapped type of an optional, the type itself
    /// otherwise.
    pub fn inner_type(&self) -> (r: &String)
        ensures
            r@ == spec_inner_type(self@),
    {
        match self {
            DeclaredType::Plain { name } => name,
            DeclaredType::Optional { inner } => inner,
        }
    }

    /// An equal copy of the declared type.
    pub fn duplicate(&self) -> (r: DeclaredType)
        ensures
            r@ == self@,
    {
        match self {
            DeclaredType::Plain { name } => DeclaredType::Plain { name: name.clone() },
            DeclaredType::Optional { inner } => DeclaredType::Optional { inner: inner.clone() },
        }
    }
}

impl ColumnRef {
    /// An equal copy of the column reference.
    pub fn duplicate(&self) -> (r: ColumnRef)
        ensures
            r@ == self@,
    {
        ColumnRef { table: self.table.clone(), column: self.column.clone() }
    }
}

impl TableNamespace {
    /// Resolves a field name against the namespace: the matching column
    /// reference when the table has a column of that name, the
    /// `UnknownColumn` diagnostic otherwise.
    pub fn resolve(&self, field_name: &String) -> (r: Result<ColumnRef, Diagnostic>)
        ensures
            match r {
                Result::Ok(c) => ns_has(self@, field_name@) && c@ == spec_resolve(
                    self@,
                    field_name@,
                ),
                Result::Err(d) => !ns_has(self@, field_name@) && d@
                    == (DiagnosticView::UnknownColumn { field: field_name@ }),
            },
    {
        let mut i: usize = 0;
        while i < self.columns.len()
            invariant
                0 <= i <= self.columns.len(),
                forall|j: int| 0 <= j < i ==> self@.columns[j] != field_name@,
            decreases self.columns.len() - i,
        {
            proof {
                assert(self@.columns[i as int] == self.columns@[i as int]@);
            }
            if self.columns[i].eq(field_name) {
                return Result::Ok(
                    ColumnRef { table: self.table.clone(), column: field_name.clone() },
                );
            }
            i += 1;
        }
        Result::Err(Diagnostic::UnknownColumn { field: field_name.clone() })
    }
}

} // verus!
