use std::collections::HashSet;

use diesel_ease::docs::operation_doc;
use diesel_ease::generate;
use diesel_ease::names::{operation_name, operation_names, operation_parameters};
use diesel_ease::operations::{enumerate_operations, OperationSpec};
use diesel_ease::schema::{extract_schema, FieldDeclaration, RecordDeclaration, RecordSchema};

fn field(name: &str, ty: &str) -> FieldDeclaration {
    FieldDeclaration { name: Some(String::from(name)), ty: String::from(ty) }
}

fn user_schema() -> RecordSchema {
    let decl = RecordDeclaration {
        name: String::from("User"),
        fields: vec![field("id", "i32"), field("name", "String")],
    };
    extract_schema(&decl).expect("a named, nonempty declaration must extract")
}

#[test]
fn names_follow_the_templates() {
    let schema = user_schema();
    assert_eq!(
        operation_name(&schema, &OperationSpec::GetBy { return_field: 1, filter_field: 0 }),
        "get_names_by_id"
    );
    assert_eq!(
        operation_name(&schema, &OperationSpec::GetBy { return_field: 0, filter_field: 1 }),
        "get_ids_by_name"
    );
    assert_eq!(
        operation_name(&schema, &OperationSpec::GetRecord { filter_field: 0 }),
        "get_by_id"
    );
    assert_eq!(
        operation_name(&schema, &OperationSpec::Update { target_field: 1, filter_field: 0 }),
        "update_names_by_id"
    );
    assert_eq!(
        operation_name(&schema, &OperationSpec::DeleteBy { filter_field: 1 }),
        "delete_by_name"
    );
    assert_eq!(operation_name(&schema, &OperationSpec::Insert), "insert");
    assert_eq!(operation_name(&schema, &OperationSpec::GetAll), "get_all");
    assert_eq!(operation_name(&schema, &OperationSpec::DeleteAll), "delete_all");
}

#[test]
fn names_are_pairwise_distinct_for_distinct_field_names() {
    let decl = RecordDeclaration {
        name: String::from("Post"),
        fields: vec![
            field("id", "i32"),
            field("title", "String"),
            field("body", "String"),
            field("published", "bool"),
        ],
    };
    let generated = generate(&decl).expect("well formed");
    let names = operation_names(&generated.schema, &generated.operations);
    let mut seen: HashSet<String> = HashSet::new();
    for name in &names {
        assert!(seen.insert(name.clone()), "duplicate generated name: {}", name);
    }
    assert_eq!(names.len(), 35);
}

#[test]
fn names_are_synthesized_in_generation_order() {
    let schema = user_schema();
    let ops = enumerate_operations(&schema);
    let names = operation_names(&schema, &ops);
    assert_eq!(
        names,
        vec![
            String::from("get_ids_by_name"),
            String::from("update_ids_by_name"),
            String::from("get_by_id"),
            String::from("delete_by_id"),
            String::from("get_names_by_id"),
            String::from("update_names_by_id"),
            String::from("get_by_name"),
            String::from("delete_by_name"),
            String::from("insert"),
            String::from("get_all"),
            String::from("delete_all"),
        ]
    );
}

#[test]
fn filter_parameters_carry_the_filter_field_name_and_type() {
    let schema = user_schema();
    let params =
        operation_parameters(&schema, &OperationSpec::GetBy { return_field: 1, filter_field: 0 });
    assert_eq!(params.len(), 1);
    assert_eq!(params[0].name, "query_id");
    assert_eq!(params[0].ty, "i32");
}

#[test]
fn update_parameters_are_the_filter_value_then_the_new_value() {
    let schema = user_schema();
    let params =
        operation_parameters(&schema, &OperationSpec::Update { target_field: 1, filter_field: 0 });
    assert_eq!(params.len(), 2);
    assert_eq!(params[0].name, "query_id");
    assert_eq!(params[0].ty, "i32");
    assert_eq!(params[1].name, "new_name");
    assert_eq!(params[1].ty, "String");
}

#[test]
fn insert_parameter_references_the_companion_shape() {
    let schema = user_schema();
    let params = operation_parameters(&schema, &OperationSpec::Insert);
    assert_eq!(params.len(), 1);
    assert_eq!(params[0].name, "new_user");
    assert_eq!(params[0].ty, "NewUser");
}

#[test]
fn whole_table_operations_take_no_parameters() {
    let schema = user_schema();
    assert_eq!(operation_parameters(&schema, &OperationSpec::GetAll).len(), 0);
    assert_eq!(operation_parameters(&schema, &OperationSpec::DeleteAll).len(), 0);
}

#[test]
fn get_by_documentation_has_title_heading_and_bullet() {
    let schema = user_schema();
    let doc = operation_doc(&schema, &OperationSpec::GetBy { return_field: 1, filter_field: 0 });
    assert_eq!(
        doc,
        "Get names by filtering `id`\n\nArguments\n\n- The `query_id` argument is the `id` value to filter by\n\n"
    );
}

#[test]
fn update_documentation_has_one_bullet_per_parameter() {
    let schema = user_schema();
    let doc = operation_doc(&schema, &OperationSpec::Update { target_field: 1, filter_field: 0 });
    assert_eq!(
        doc,
        "Update names by `id`\n\nArguments\n\n- The `query_id` argument is the `id` value to filter by\n- The `new_name` argument is the new `name` value\n\n"
    );
}

#[test]
fn insert_documentation_names_the_companion_shape() {
    let schema = user_schema();
    let doc = operation_doc(&schema, &OperationSpec::Insert);
    assert_eq!(
        doc,
        "Insert a new `User`\n\nArguments\n\n- The `new_user` argument is the `NewUser` value to insert\n\n"
    );
}

#[test]
fn documentation_is_stable_across_regenerations() {
    let schema = user_schema();
    let op = OperationSpec::GetBy { return_field: 0, filter_field: 1 };
    assert_eq!(operation_doc(&schema, &op), operation_doc(&schema, &op));
}

#[test]
fn lowercasing_touches_only_ascii_uppercase() {
    assert_eq!(diesel_ease::names::ascii_lowercase("APIKey9_x"), "apikey9_x");
    assert_eq!(diesel_ease::names::ascii_lowercase(""), "");
}
