use insertable::classify::classify;
use insertable::model::{
    ColumnRef, DeclaredType, Diagnostic, FieldModel, Mode, RecordModel, TableNamespace,
};
use insertable::plan::{ValueExpr, ValueTypeExpr};

fn plain(name: &str, ty: &str) -> FieldModel {
    FieldModel {
        name: name.to_string(),
        ty: DeclaredType::Plain { name: ty.to_string() },
        embed: None,
        serialize_as: None,
    }
}

fn optional(name: &str, ty: &str) -> FieldModel {
    FieldModel {
        name: name.to_string(),
        ty: DeclaredType::Optional { inner: ty.to_string() },
        embed: None,
        serialize_as: None,
    }
}

fn custom(name: &str, ty: &str, target: &str) -> FieldModel {
    FieldModel {
        name: name.to_string(),
        ty: DeclaredType::Plain { name: ty.to_string() },
        embed: None,
        serialize_as: Some(target.to_string()),
    }
}

fn embedded(name: &str, ty: &str, nested: RecordModel) -> FieldModel {
    FieldModel {
        name: name.to_string(),
        ty: DeclaredType::Plain { name: ty.to_string() },
        embed: Some(Box::new(nested)),
        serialize_as: None,
    }
}

fn record(name: &str, table: &str, fields: Vec<FieldModel>) -> RecordModel {
    RecordModel { name: name.to_string(), table: table.to_string(), fields }
}

fn namespace(table: &str, columns: &[&str]) -> TableNamespace {
    TableNamespace {
        table: table.to_string(),
        columns: columns.iter().map(|c| c.to_string()).collect(),
    }
}

fn column(table: &str, name: &str) -> ColumnRef {
    ColumnRef { table: table.to_string(), column: name.to_string() }
}

#[test]
fn example_a_two_plain_fields() {
    let r = record("User", "users", vec![plain("id", "Int"), plain("name", "Text")]);
    let ns = namespace("users", &["id", "name"]);
    let plan = insertable::compile::derive(&r, &ns).unwrap();
    assert_eq!(plan.owned_arity(), 2);
    assert!(plan.has_borrowed());
    let borrowed = plan.borrowed.as_ref().unwrap();
    assert_eq!(borrowed.len(), 2);
    assert_eq!(
        plan.owned[0].value_type,
        ValueTypeExpr::OptionAssignment {
            column: column("users", "id"),
            value_ty: "Int".to_string(),
            borrowed: false,
        }
    );
    assert_eq!(
        plan.owned[0].value_expr,
        ValueExpr::SomeEq { column: column("users", "id"), field: "id".to_string(), borrowed: false }
    );
    assert_eq!(
        plan.owned[1].value_expr,
        ValueExpr::SomeEq {
            column: column("users", "name"),
            field: "name".to_string(),
            borrowed: false,
        }
    );
    // The borrowed strategy borrows, and a plain field still contributes a
    // present assignment there.
    assert_eq!(
        borrowed[0].value_type,
        ValueTypeExpr::OptionAssignment {
            column: column("users", "id"),
            value_ty: "Int".to_string(),
            borrowed: true,
        }
    );
    assert_eq!(
        borrowed[0].value_expr,
        ValueExpr::SomeEq { column: column("users", "id"), field: "id".to_string(), borrowed: true }
    );
}

#[test]
fn example_b_empty_record() {
    let r = record("Unit", "units", vec![]);
    let ns = namespace("units", &[]);
    let err = insertable::compile::derive(&r, &ns).unwrap_err();
    assert_eq!(err, Diagnostic::EmptyRecord { table: "units".to_string() });
}

#[test]
fn example_c_embedded_record() {
    let address = record("Address", "users", vec![plain("street", "Text")]);
    let r = record("User", "users", vec![embedded("addr", "Address", address)]);
    let ns = namespace("users", &["street"]);
    let plan = insertable::compile::derive(&r, &ns).unwrap();
    assert_eq!(plan.owned_arity(), 1);
    // The embedded field's artifact is the field's own type and a move of
    // the field, not an optional-assignment wrapper.
    assert_eq!(
        plan.owned[0].value_type,
        ValueTypeExpr::FieldType { ty: DeclaredType::Plain { name: "Address".to_string() } }
    );
    assert_eq!(plan.owned[0].value_expr, ValueExpr::MoveField { field: "addr".to_string() });
    // It carries the embedded record's own mapping, of arity 1.
    let nested = plan.owned[0].nested.as_ref().unwrap();
    assert_eq!(nested.owned_arity(), 1);
    assert_eq!(
        nested.owned[0].value_expr,
        ValueExpr::SomeEq {
            column: column("users", "street"),
            field: "street".to_string(),
            borrowed: false,
        }
    );
    // Borrowed access borrows the embedded field.
    let borrowed = plan.borrowed.as_ref().unwrap();
    assert_eq!(
        borrowed[0].value_type,
        ValueTypeExpr::RefFieldType { ty: DeclaredType::Plain { name: "Address".to_string() } }
    );
    assert_eq!(borrowed[0].value_expr, ValueExpr::BorrowField { field: "addr".to_string() });
}

#[test]
fn example_d_custom_serialized() {
    let r = record("User", "users", vec![custom("email", "Text", "Lowercased")]);
    let ns = namespace("users", &["email"]);
    let plan = insertable::compile::derive(&r, &ns).unwrap();
    assert_eq!(plan.owned_arity(), 1);
    assert!(!plan.has_borrowed());
    assert_eq!(plan.borrowed, None);
    assert_eq!(
        plan.owned[0].value_type,
        ValueTypeExpr::OptionAssignment {
            column: column("users", "email"),
            value_ty: "Lowercased".to_string(),
            borrowed: false,
        }
    );
    assert_eq!(
        plan.owned[0].value_expr,
        ValueExpr::SomeEqInto {
            column: column("users", "email"),
            field: "email".to_string(),
            target: "Lowercased".to_string(),
        }
    );
}

#[test]
fn compiles_with_arity_equal_field_count() {
    let address = record("Address", "people", vec![plain("street", "Text")]);
    let r = record(
        "Person",
        "people",
        vec![plain("id", "Int"), optional("nick", "Text"), embedded("addr", "Address", address)],
    );
    let ns = namespace("people", &["id", "nick", "street"]);
    let plan = insertable::compile::derive(&r, &ns).unwrap();
    assert_eq!(plan.owned_arity(), 3);
    assert!(plan.has_borrowed());
    assert_eq!(plan.borrowed.as_ref().unwrap().len(), 3);
}

#[test]
fn empty_record_fails_regardless_of_table() {
    let r = record("Nothing", "anywhere", vec![]);
    let ns = namespace("anywhere", &["a", "b"]);
    assert_eq!(
        insertable::compile::derive(&r, &ns).unwrap_err(),
        Diagnostic::EmptyRecord { table: "anywhere".to_string() }
    );
}

#[test]
fn conflict_fails_at_first_position() {
    let mut bad = custom("payload", "Json", "Text");
    bad.embed = Some(Box::new(record("Payload", "events", vec![plain("kind", "Text")])));
    let r = record("Event", "events", vec![bad, plain("id", "Int")]);
    let ns = namespace("events", &["id", "payload", "kind"]);
    assert_eq!(
        insertable::compile::derive(&r, &ns).unwrap_err(),
        Diagnostic::ConflictingModifiers { field: "payload".to_string() }
    );
}

#[test]
fn conflict_fails_at_last_position() {
    let mut bad = custom("payload", "Json", "Text");
    bad.embed = Some(Box::new(record("Payload", "events", vec![plain("kind", "Text")])));
    let r = record("Event", "events", vec![plain("id", "Int"), optional("note", "Text"), bad]);
    let ns = namespace("events", &["id", "note", "payload", "kind"]);
    assert_eq!(
        insertable::compile::derive(&r, &ns).unwrap_err(),
        Diagnostic::ConflictingModifiers { field: "payload".to_string() }
    );
}

#[test]
fn conflict_wins_over_unknown_column() {
    // Classification of the whole record precedes synthesis, so a modifier
    // conflict on a later field is reported before an earlier field's
    // unresolvable column.
    let mut bad = custom("extra", "Json", "Text");
    bad.embed = Some(Box::new(record("Extra", "logs", vec![plain("kind", "Text")])));
    let r = record("Log", "logs", vec![plain("missing", "Int"), bad]);
    let ns = namespace("logs", &["extra"]);
    assert_eq!(
        insertable::compile::derive(&r, &ns).unwrap_err(),
        Diagnostic::ConflictingModifiers { field: "extra".to_string() }
    );
}

#[test]
fn borrowed_suppressed_by_single_custom_field() {
    let r = record(
        "User",
        "users",
        vec![plain("id", "Int"), custom("email", "Text", "Lowercased"), plain("name", "Text")],
    );
    let ns = namespace("users", &["id", "email", "name"]);
    let plan = insertable::compile::derive(&r, &ns).unwrap();
    assert_eq!(plan.owned_arity(), 3);
    assert_eq!(plan.borrowed, None);
}

#[test]
fn borrowed_present_without_custom_fields() {
    let r = record("User", "users", vec![plain("id", "Int"), optional("nick", "Text")]);
    let ns = namespace("users", &["id", "nick"]);
    let plan = insertable::compile::derive(&r, &ns).unwrap();
    assert!(plan.has_borrowed());
    assert_eq!(plan.borrowed.as_ref().unwrap().len(), plan.owned_arity());
}

#[test]
fn unknown_column_diagnostic() {
    let r = record("User", "users", vec![plain("id", "Int"), plain("ghost", "Text")]);
    let ns = namespace("users", &["id"]);
    assert_eq!(
        insertable::compile::derive(&r, &ns).unwrap_err(),
        Diagnostic::UnknownColumn { field: "ghost".to_string() }
    );
}

#[test]
fn nested_empty_record_propagates() {
    let empty = record("Nothing", "inner_table", vec![]);
    let r = record("Outer", "outers", vec![embedded("inner", "Nothing", empty)]);
    let ns = namespace("outers", &[]);
    assert_eq!(
        insertable::compile::derive(&r, &ns).unwrap_err(),
        Diagnostic::EmptyRecord { table: "inner_table".to_string() }
    );
}

#[test]
fn optional_direct_field_expressions() {
    let r = record("Post", "posts", vec![optional("tag", "Text")]);
    let ns = namespace("posts", &["tag"]);
    let plan = insertable::compile::derive(&r, &ns).unwrap();
    assert_eq!(
        plan.owned[0].value_expr,
        ValueExpr::MapEq { column: column("posts", "tag"), field: "tag".to_string(), borrowed: false }
    );
    assert_eq!(
        plan.borrowed.as_ref().unwrap()[0].value_expr,
        ValueExpr::MapEq { column: column("posts", "tag"), field: "tag".to_string(), borrowed: true }
    );
    assert_eq!(
        plan.owned[0].value_type,
        ValueTypeExpr::OptionAssignment {
            column: column("posts", "tag"),
            value_ty: "Text".to_string(),
            borrowed: false,
        }
    );
}

#[test]
fn classify_embedded_field() {
    let address = record("Address", "users", vec![plain("street", "Text")]);
    let f = embedded("addr", "Address", address);
    assert_eq!(classify(&f).unwrap(), Mode::Embedded);
}

#[test]
fn classify_custom_serialized_field() {
    let f = custom("email", "Text", "Lowercased");
    assert_eq!(
        classify(&f).unwrap(),
        Mode::CustomSerialized { target: "Lowercased".to_string() }
    );
}

#[test]
fn classify_direct_field() {
    assert_eq!(classify(&plain("id", "Int")).unwrap(), Mode::Direct);
    assert_eq!(classify(&optional("nick", "Text")).unwrap(), Mode::Direct);
}

#[test]
fn classify_conflicting_field() {
    let mut bad = custom("payload", "Json", "Text");
    bad.embed = Some(Box::new(record("Payload", "events", vec![plain("kind", "Text")])));
    assert_eq!(
        classify(&bad).unwrap_err(),
        Diagnostic::ConflictingModifiers { field: "payload".to_string() }
    );
}

#[test]
fn resolve_known_column() {
    let ns = namespace("users", &["id", "name"]);
    assert_eq!(ns.resolve(&"name".to_string()).unwrap(), column("users", "name"));
}

#[test]
fn resolve_unknown_column() {
    let ns = namespace("users", &["id"]);
    assert_eq!(
        ns.resolve(&"name".to_string()).unwrap_err(),
        Diagnostic::UnknownColumn { field: "name".to_string() }
    );
}

#[test]
fn nested_custom_field_suppresses_only_nested_borrowed() {
    // The whole-record suppression rule looks at this record's fields only:
    // a custom-serialized field inside an embedded record suppresses the
    // borrowed strategy of the embedded plan, not of the outer one.
    let inner = record("Contact", "users", vec![custom("email", "Text", "Lowercased")]);
    let r = record("User", "users", vec![plain("id", "Int"), embedded("contact", "Contact", inner)]);
    let ns = namespace("users", &["id", "email"]);
    let plan = insertable::compile::derive(&r, &ns).unwrap();
    assert!(plan.has_borrowed());
    assert_eq!(plan.borrowed.as_ref().unwrap().len(), 2);
    let nested = plan.owned[1].nested.as_ref().unwrap();
    assert_eq!(nested.borrowed, None);
    assert_eq!(nested.owned_arity(), 1);
}

#[test]
fn nested_conflict_propagates() {
    let mut bad = custom("detail", "Json", "Text");
    bad.embed = Some(Box::new(record("Detail", "orders", vec![plain("kind", "Text")])));
    let inner = record("Item", "orders", vec![bad]);
    let r = record("Order", "orders", vec![plain("id", "Int"), embedded("item", "Item", inner)]);
    let ns = namespace("orders", &["id", "detail", "kind"]);
    assert_eq!(
        insertable::compile::derive(&r, &ns).unwrap_err(),
        Diagnostic::ConflictingModifiers { field: "detail".to_string() }
    );
}

#[test]
fn two_levels_of_embedding() {
    let street = record("Street", "places", vec![plain("street", "Text")]);
    let address = record("Address", "places", vec![embedded("loc", "Street", street)]);
    let r = record("Place", "places", vec![embedded("addr", "Address", address)]);
    let ns = namespace("places", &["street"]);
    let plan = insertable::compile::derive(&r, &ns).unwrap();
    assert_eq!(plan.owned_arity(), 1);
    let level1 = plan.owned[0].nested.as_ref().unwrap();
    assert_eq!(level1.owned_arity(), 1);
    let level2 = level1.owned[0].nested.as_ref().unwrap();
    assert_eq!(level2.owned_arity(), 1);
    assert_eq!(
        level2.owned[0].value_expr,
        ValueExpr::SomeEq {
            column: column("places", "street"),
            field: "street".to_string(),
            borrowed: false,
        }
    );
}
