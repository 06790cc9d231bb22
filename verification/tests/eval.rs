use insertable::eval::ColumnAssignment;
use insertable::model::{ColumnRef, DeclaredType, FieldModel, RecordModel, TableNamespace};

fn optional(name: &str, ty: &str) -> FieldModel {
    FieldModel {
        name: name.to_string(),
        ty: DeclaredType::Optional { inner: ty.to_string() },
        embed: None,
        serialize_as: None,
    }
}

fn plain(name: &str, ty: &str) -> FieldModel {
    FieldModel {
        name: name.to_string(),
        ty: DeclaredType::Plain { name: ty.to_string() },
        embed: None,
        serialize_as: None,
    }
}

fn column(table: &str, name: &str) -> ColumnRef {
    ColumnRef { table: table.to_string(), column: name.to_string() }
}

#[test]
fn example_e_unset_optional_field() {
    let r = RecordModel {
        name: "Post".to_string(),
        table: "posts".to_string(),
        fields: vec![optional("tag", "Text")],
    };
    let ns = TableNamespace { table: "posts".to_string(), columns: vec!["tag".to_string()] };
    let plan = insertable::compile::derive(&r, &ns).unwrap();
    // Runtime value unset: the owned value evaluates to no assignment at
    // all, so the column falls back to the table's default.
    assert_eq!(plan.owned[0].value_expr.eval_direct(None), None);
}

#[test]
fn example_e_set_optional_field() {
    let r = RecordModel {
        name: "Post".to_string(),
        table: "posts".to_string(),
        fields: vec![optional("tag", "Text")],
    };
    let ns = TableNamespace { table: "posts".to_string(), columns: vec!["tag".to_string()] };
    let plan = insertable::compile::derive(&r, &ns).unwrap();
    let value = "x".to_string();
    assert_eq!(
        plan.owned[0].value_expr.eval_direct(Some(&value)),
        Some(ColumnAssignment { column: column("posts", "tag"), value: "x".to_string() })
    );
}

#[test]
fn plain_field_always_contributes() {
    let r = RecordModel {
        name: "User".to_string(),
        table: "users".to_string(),
        fields: vec![plain("id", "Int")],
    };
    let ns = TableNamespace { table: "users".to_string(), columns: vec!["id".to_string()] };
    let plan = insertable::compile::derive(&r, &ns).unwrap();
    let value = "7".to_string();
    assert_eq!(
        plan.owned[0].value_expr.eval_direct(Some(&value)),
        Some(ColumnAssignment { column: column("users", "id"), value: "7".to_string() })
    );
}

#[test]
fn borrowed_expression_assigns_same_value() {
    // Borrowing rewraps only the reference: the assignment a borrowed
    // expression evaluates to carries the same column and value as the
    // owned one.
    let r = RecordModel {
        name: "User".to_string(),
        table: "users".to_string(),
        fields: vec![plain("id", "Int"), optional("nick", "Text")],
    };
    let ns = TableNamespace {
        table: "users".to_string(),
        columns: vec!["id".to_string(), "nick".to_string()],
    };
    let plan = insertable::compile::derive(&r, &ns).unwrap();
    let borrowed = plan.borrowed.as_ref().unwrap();
    let id = "3".to_string();
    assert_eq!(
        borrowed[0].value_expr.eval_direct(Some(&id)),
        plan.owned[0].value_expr.eval_direct(Some(&id))
    );
    assert_eq!(borrowed[1].value_expr.eval_direct(None), None);
    let nick = "kim".to_string();
    assert_eq!(
        borrowed[1].value_expr.eval_direct(Some(&nick)),
        Some(ColumnAssignment { column: column("users", "nick"), value: "kim".to_string() })
    );
}
