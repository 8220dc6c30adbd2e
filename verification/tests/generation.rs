use diesel_ease::generate;
use diesel_ease::operations::{enumerate_operations, OperationSpec};
use diesel_ease::schema::{
    extract_schema, FieldDeclaration, RecordDeclaration, RecordSchema, SchemaError,
};

fn field(name: &str, ty: &str) -> FieldDeclaration {
    FieldDeclaration { name: Some(String::from(name)), ty: String::from(ty) }
}

fn declaration(name: &str, fields: Vec<FieldDeclaration>) -> RecordDeclaration {
    RecordDeclaration { name: String::from(name), fields }
}

fn post_declaration() -> RecordDeclaration {
    declaration(
        "Post",
        vec![
            field("id", "i32"),
            field("title", "String"),
            field("body", "String"),
            field("published", "bool"),
        ],
    )
}

fn schema_of(decl: &RecordDeclaration) -> RecordSchema {
    extract_schema(decl).expect("a named, nonempty declaration must extract")
}

fn count_get_by(ops: &[OperationSpec]) -> usize {
    ops.iter().filter(|op| matches!(op, OperationSpec::GetBy { .. })).count()
}

fn count_update(ops: &[OperationSpec]) -> usize {
    ops.iter().filter(|op| matches!(op, OperationSpec::Update { .. })).count()
}

fn count_get_record(ops: &[OperationSpec]) -> usize {
    ops.iter().filter(|op| matches!(op, OperationSpec::GetRecord { .. })).count()
}

fn count_delete_by(ops: &[OperationSpec]) -> usize {
    ops.iter().filter(|op| matches!(op, OperationSpec::DeleteBy { .. })).count()
}

#[test]
fn empty_declaration_fails_with_empty_schema() {
    let decl = declaration("Nothing", vec![]);
    let r = generate(&decl);
    assert!(matches!(r, Err(SchemaError::EmptySchema)));
}

#[test]
fn positional_fields_fail_with_unsupported_schema() {
    let decl = RecordDeclaration {
        name: String::from("Pair"),
        fields: vec![
            FieldDeclaration { name: None, ty: String::from("i32") },
            FieldDeclaration { name: None, ty: String::from("i32") },
        ],
    };
    let r = generate(&decl);
    assert!(matches!(r, Err(SchemaError::UnsupportedSchema)));
}

#[test]
fn one_positional_field_among_named_ones_is_still_unsupported() {
    let decl = RecordDeclaration {
        name: String::from("Mixed"),
        fields: vec![
            field("id", "i32"),
            FieldDeclaration { name: None, ty: String::from("String") },
        ],
    };
    let r = generate(&decl);
    assert!(matches!(r, Err(SchemaError::UnsupportedSchema)));
}

#[test]
fn extraction_keeps_names_and_types_in_order() {
    let schema = schema_of(&post_declaration());
    assert_eq!(schema.name, "Post");
    let names: Vec<&str> = schema.fields.iter().map(|f| f.name.as_str()).collect();
    assert_eq!(names, vec!["id", "title", "body", "published"]);
    let types: Vec<&str> = schema.fields.iter().map(|f| f.ty.as_str()).collect();
    assert_eq!(types, vec!["i32", "String", "String", "bool"]);
}

#[test]
fn counts_for_two_fields() {
    let schema = schema_of(&declaration("User", vec![field("id", "i32"), field("name", "String")]));
    let ops = enumerate_operations(&schema);
    assert_eq!(count_get_by(&ops), 2);
    assert_eq!(count_update(&ops), 2);
    assert_eq!(count_get_record(&ops), 2);
    assert_eq!(count_delete_by(&ops), 2);
    assert_eq!(ops.iter().filter(|op| matches!(op, OperationSpec::Insert)).count(), 1);
    assert_eq!(ops.iter().filter(|op| matches!(op, OperationSpec::GetAll)).count(), 1);
    assert_eq!(ops.iter().filter(|op| matches!(op, OperationSpec::DeleteAll)).count(), 1);
}

#[test]
fn single_field_schema_has_no_cross_product_operations() {
    let schema = schema_of(&declaration("Tag", vec![field("label", "String")]));
    let ops = enumerate_operations(&schema);
    assert_eq!(count_get_by(&ops), 0);
    assert_eq!(count_update(&ops), 0);
    assert_eq!(count_get_record(&ops), 1);
    assert_eq!(count_delete_by(&ops), 1);
    assert_eq!(
        ops,
        vec![
            OperationSpec::GetRecord { filter_field: 0 },
            OperationSpec::DeleteBy { filter_field: 0 },
            OperationSpec::Insert,
            OperationSpec::GetAll,
            OperationSpec::DeleteAll,
        ]
    );
}

#[test]
fn four_field_schema_has_the_full_cross_product() {
    let generated = generate(&post_declaration()).expect("the declaration is well formed");
    let ops = generated.operations;
    assert_eq!(count_get_by(&ops), 12);
    assert_eq!(count_update(&ops), 12);
    assert_eq!(count_get_record(&ops), 4);
    assert_eq!(count_delete_by(&ops), 4);
    assert_eq!(ops.iter().filter(|op| matches!(op, OperationSpec::Insert)).count(), 1);
    assert_eq!(ops.iter().filter(|op| matches!(op, OperationSpec::GetAll)).count(), 1);
    assert_eq!(ops.iter().filter(|op| matches!(op, OperationSpec::DeleteAll)).count(), 1);
    assert_eq!(ops.len(), 35);
}

#[test]
fn no_operation_filters_a_field_by_itself() {
    let schema = schema_of(&post_declaration());
    for op in enumerate_operations(&schema) {
        match op {
            OperationSpec::GetBy { return_field, filter_field } => {
                assert_ne!(return_field, filter_field);
            }
            OperationSpec::Update { target_field, filter_field } => {
                assert_ne!(target_field, filter_field);
            }
            _ => {}
        }
    }
}

#[test]
fn enumeration_order_is_the_nested_generation_order() {
    let schema = schema_of(&declaration("User", vec![field("id", "i32"), field("name", "String")]));
    let ops = enumerate_operations(&schema);
    assert_eq!(
        ops,
        vec![
            OperationSpec::GetBy { return_field: 0, filter_field: 1 },
            OperationSpec::Update { target_field: 0, filter_field: 1 },
            OperationSpec::GetRecord { filter_field: 0 },
            OperationSpec::DeleteBy { filter_field: 0 },
            OperationSpec::GetBy { return_field: 1, filter_field: 0 },
            OperationSpec::Update { target_field: 1, filter_field: 0 },
            OperationSpec::GetRecord { filter_field: 1 },
            OperationSpec::DeleteBy { filter_field: 1 },
            OperationSpec::Insert,
            OperationSpec::GetAll,
            OperationSpec::DeleteAll,
        ]
    );
}

#[test]
fn regenerating_from_an_identical_schema_is_deterministic() {
    let first = generate(&post_declaration()).expect("well formed");
    let second = generate(&post_declaration()).expect("well formed");
    assert_eq!(first.operations, second.operations);
}
