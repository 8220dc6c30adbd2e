use diesel_ease::emit::{
    operation_outcome, operation_request, operation_signature, NewRecord, OperationArgs,
    OperationValue, QueryError, QueryRequest, Record, ResponseData, Value,
};
use diesel_ease::operations::OperationSpec;

fn post_record(id: i64, title: &str, body: &str, published: bool) -> Record {
    Record {
        values: vec![
            Value::Int(id),
            Value::Text(String::from(title)),
            Value::Text(String::from(body)),
            Value::Boolean(published),
        ],
    }
}

#[test]
fn get_by_sends_an_equality_filter_on_the_filter_field() {
    let op = OperationSpec::GetBy { return_field: 1, filter_field: 0 };
    let request = operation_request(&op, OperationArgs::Filter(Value::Int(7)));
    assert_eq!(request, QueryRequest::FilterByEquals { field: 0, value: Value::Int(7) });
}

#[test]
fn update_sends_filter_and_new_value() {
    let op = OperationSpec::Update { target_field: 1, filter_field: 0 };
    let request = operation_request(
        &op,
        OperationArgs::FilterAndNew(Value::Int(7), Value::Text(String::from("Revised"))),
    );
    assert_eq!(
        request,
        QueryRequest::UpdateWhereEquals {
            filter_field: 0,
            filter_value: Value::Int(7),
            target_field: 1,
            new_value: Value::Text(String::from("Revised")),
        }
    );
}

#[test]
fn whole_table_operations_send_unconditional_requests() {
    let insert_request = operation_request(
        &OperationSpec::Insert,
        OperationArgs::Companion(NewRecord { values: vec![Value::Text(String::from("A title"))] }),
    );
    assert_eq!(
        insert_request,
        QueryRequest::Insert {
            new_record: NewRecord { values: vec![Value::Text(String::from("A title"))] }
        }
    );
    assert_eq!(
        operation_request(&OperationSpec::GetAll, OperationArgs::NoArgs),
        QueryRequest::LoadAll
    );
    assert_eq!(
        operation_request(&OperationSpec::DeleteAll, OperationArgs::NoArgs),
        QueryRequest::DeleteAll
    );
}

#[test]
fn get_by_maps_rows_to_the_returned_field_in_order() {
    // a capability that answers the filter with one fixed record must make
    // the bound operation return exactly that record's title value
    let op = OperationSpec::GetBy { return_field: 1, filter_field: 0 };
    let row = post_record(1, "A title", "A body", true);
    let outcome = operation_outcome(&op, Ok(ResponseData::Rows(vec![row])));
    assert_eq!(outcome, Ok(OperationValue::Values(vec![Value::Text(String::from("A title"))])));
}

#[test]
fn get_by_keeps_row_order_over_several_rows() {
    let op = OperationSpec::GetBy { return_field: 2, filter_field: 3 };
    let rows = vec![
        post_record(1, "First", "alpha", true),
        post_record(2, "Second", "beta", true),
        post_record(3, "Third", "gamma", true),
    ];
    let outcome = operation_outcome(&op, Ok(ResponseData::Rows(rows)));
    assert_eq!(
        outcome,
        Ok(OperationValue::Values(vec![
            Value::Text(String::from("alpha")),
            Value::Text(String::from("beta")),
            Value::Text(String::from("gamma")),
        ]))
    );
}

#[test]
fn get_record_returns_an_empty_row_list_as_success() {
    let op = OperationSpec::GetRecord { filter_field: 0 };
    let outcome = operation_outcome(&op, Ok(ResponseData::Rows(vec![])));
    assert_eq!(outcome, Ok(OperationValue::Rows(vec![])));
}

#[test]
fn update_propagates_not_found_unmodified() {
    // a capability that fails the update with NotFound must make the bound
    // operation return that exact error, not panic and not substitute a
    // default record
    let op = OperationSpec::Update { target_field: 1, filter_field: 0 };
    let outcome = operation_outcome(&op, Err(QueryError::NotFound));
    assert_eq!(outcome, Err(QueryError::NotFound));
}

#[test]
fn every_operation_propagates_every_failure_unmodified() {
    let ops = vec![
        OperationSpec::GetBy { return_field: 1, filter_field: 0 },
        OperationSpec::GetRecord { filter_field: 0 },
        OperationSpec::Update { target_field: 0, filter_field: 1 },
        OperationSpec::DeleteBy { filter_field: 0 },
        OperationSpec::Insert,
        OperationSpec::GetAll,
        OperationSpec::DeleteAll,
    ];
    let errors =
        vec![QueryError::NotFound, QueryError::ConstraintViolation, QueryError::ConnectionFailure];
    for op in &ops {
        for e in &errors {
            let outcome = operation_outcome(op, Err(*e));
            assert_eq!(outcome, Err(*e));
        }
    }
}

#[test]
fn update_returns_the_affected_record() {
    let op = OperationSpec::Update { target_field: 1, filter_field: 0 };
    let updated = post_record(1, "Revised", "A body", true);
    let outcome = operation_outcome(&op, Ok(ResponseData::Row(updated.clone())));
    assert_eq!(outcome, Ok(OperationValue::Row(updated)));
}

#[test]
fn delete_by_returns_the_affected_count() {
    let op = OperationSpec::DeleteBy { filter_field: 3 };
    let outcome = operation_outcome(&op, Ok(ResponseData::Count(4)));
    assert_eq!(outcome, Ok(OperationValue::Count(4)));
}

#[test]
fn insert_returns_the_stored_record() {
    let stored = post_record(8, "A title", "A body", false);
    let outcome = operation_outcome(&OperationSpec::Insert, Ok(ResponseData::Row(stored.clone())));
    assert_eq!(outcome, Ok(OperationValue::Row(stored)));
}

#[test]
fn signatures_render_the_full_callable_shape() {
    let decl = diesel_ease::schema::RecordDeclaration {
        name: String::from("User"),
        fields: vec![
            diesel_ease::schema::FieldDeclaration {
                name: Some(String::from("id")),
                ty: String::from("i32"),
            },
            diesel_ease::schema::FieldDeclaration {
                name: Some(String::from("name")),
                ty: String::from("String"),
            },
        ],
    };
    let schema = diesel_ease::schema::extract_schema(&decl).expect("well formed");
    assert_eq!(
        operation_signature(
            &schema,
            "PgConnection",
            &OperationSpec::GetBy { return_field: 1, filter_field: 0 },
        ),
        "pub fn get_names_by_id(connection: &PgConnection, query_id: &i32) -> QueryResult<Vec<String>>"
    );
    assert_eq!(
        operation_signature(
            &schema,
            "PgConnection",
            &OperationSpec::Update { target_field: 1, filter_field: 0 },
        ),
        "pub fn update_names_by_id(connection: &PgConnection, query_id: &i32, new_name: &String) -> QueryResult<User>"
    );
    assert_eq!(
        operation_signature(&schema, "PgConnection", &OperationSpec::GetRecord { filter_field: 1 }),
        "pub fn get_by_name(connection: &PgConnection, query_name: &String) -> QueryResult<Vec<User>>"
    );
    assert_eq!(
        operation_signature(&schema, "PgConnection", &OperationSpec::DeleteBy { filter_field: 0 }),
        "pub fn delete_by_id(connection: &PgConnection, query_id: &i32) -> QueryResult<usize>"
    );
    assert_eq!(
        operation_signature(&schema, "PgConnection", &OperationSpec::Insert),
        "pub fn insert(connection: &PgConnection, new_user: NewUser) -> QueryResult<User>"
    );
    assert_eq!(
        operation_signature(&schema, "PgConnection", &OperationSpec::GetAll),
        "pub fn get_all(connection: &PgConnection) -> QueryResult<Vec<User>>"
    );
    assert_eq!(
        operation_signature(&schema, "PgConnection", &OperationSpec::DeleteAll),
        "pub fn delete_all(connection: &PgConnection) -> QueryResult<usize>"
    );
}
