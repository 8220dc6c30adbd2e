//! Binding the operations to the abstract query-execution capability.
//!
//! The capability (the external collaborator that actually talks to the
//! backing store) is modelled as a request/response exchange: for each
//! operation, [`operation_request`] says which single request the bound
//! callable sends, and [`operation_outcome`] says what the callable returns
//! for every response the capability can hand back. A query error is never
//! caught, converted or replaced: every failure propagates unmodified into
//! the operation's result.

use vstd::prelude::*;
use vstd::string::*;
use crate::names::{
    companion_type_name, insert_param_name, new_param_name, op_name, operation_name,
    query_param_name,
};
use crate::operations::{op_valid, OperationSpec};
use crate::schema::RecordSchema;

verus! {

/// One runtime field value of a record.
#[derive(Clone, Debug, PartialEq, Eq)]
pub enum Value {
    /// An integer value.
    Int(i64),
    /// A text value.
    Text(String),
    /// A truth value.
    Boolean(bool),
}

/// One stored record: its field values, in the schema's declaration order.
#[derive(Clone, Debug, PartialEq, Eq)]
pub struct Record {
    /// The field values, one per schema field, in declaration order.
    pub values: Vec<Value>,
}

/// The companion shape for insertion: the values of a record to be, in the
/// order of the companion declaration that mirrors the schema.
#[derive(Clone, Debug, PartialEq, Eq)]
pub struct NewRecord {
    /// The new record's field values.
    pub values: Vec<Value>,
}

/// A failure reported by the query-execution capability. It is raised only
/// at call time, never during generation, and is always handed back to the
/// caller unmodified.
#[derive(Clone, Copy, Debug, PartialEq, Eq, Structural)]
pub enum QueryError {
    /// No record matched where one was required.
    NotFound,
    /// The store refused the change.
    ConstraintViolation,
    /// The store could not be reached.
    ConnectionFailure,
}

/// The single request that a bound operation sends to the capability.
#[derive(Clone, Debug, PartialEq, Eq)]
pub enum QueryRequest {
    /// Load the records whose field at `field` equals `value`.
    FilterByEquals { field: usize, value: Value },
    /// Set the field at `target_field` to `new_value` on the records whose
    /// field at `filter_field` equals `filter_value`.
    UpdateWhereEquals {
        filter_field: usize,
        filter_value: Value,
        target_field: usize,
        new_value: Value,
    },
    /// Delete the records whose field at `field` equals `value`.
    DeleteWhereEquals { field: usize, value: Value },
    /// Insert the new record.
    Insert { new_record: NewRecord },
    /// Load every record.
    LoadAll,
    /// Delete every record.
    DeleteAll,
}

/// The payload of a successful answer from the capability.
#[derive(Clone, Debug, PartialEq, Eq)]
pub enum ResponseData {
    /// The matching records, for a load request; an empty row list is a
    /// valid answer, not a failure.
    Rows(Vec<Record>),
    /// The one affected record, for an update or insert request.
    Row(Record),
    /// The number of deleted records, for a delete request.
    Count(u64),
}

/// What a bound operation returns to its caller on success.
#[derive(Clone, Debug, PartialEq, Eq)]
pub enum OperationValue {
    /// The values of the returned field, one per matching record, in the
    /// capability's row order.
    Values(Vec<Value>),
    /// The matching records, in the capability's row order.
    Rows(Vec<Record>),
    /// The one affected record.
    Row(Record),
    /// The number of deleted records.
    Count(u64),
}

/// The call-time arguments of one bound operation.
#[derive(Clone, Debug, PartialEq, Eq)]
pub enum OperationArgs {
    /// The filter value, for `GetBy`, `GetRecord` and `DeleteBy`.
    Filter(Value),
    /// The filter value and the new value, for `Update`.
    FilterAndNew(Value, Value),
    /// The companion value, for `Insert`.
    Companion(NewRecord),
    /// No arguments, for `GetAll` and `DeleteAll`.
    NoArgs,
}

/// Whether the arguments fit the operation's kind.
pub open spec fn args_match(op: OperationSpec, args: OperationArgs) -> bool {
    match op {
        OperationSpec::GetBy { .. } => args is Filter,
        OperationSpec::GetRecord { .. } => args is Filter,
        OperationSpec::Update { .. } => args is FilterAndNew,
        OperationSpec::DeleteBy { .. } => args is Filter,
        OperationSpec::Insert => args is Companion,
        OperationSpec::GetAll => args is NoArgs,
        OperationSpec::DeleteAll => args is NoArgs,
    }
}

/// Builds the one request that the bound operation sends to the capability
/// for the given call-time arguments.
pub fn operation_request(op: &OperationSpec, args: OperationArgs) -> (r: QueryRequest)
    requires
        args_match(*op, args),
    ensures
        match (*op, args) {
            (OperationSpec::GetBy { return_field: _, filter_field }, OperationArgs::Filter(v)) => r
                == (QueryRequest::FilterByEquals { field: filter_field, value: v }),
            (OperationSpec::GetRecord { filter_field }, OperationArgs::Filter(v)) => r
                == (QueryRequest::FilterByEquals { field: filter_field, value: v }),
            (
                OperationSpec::Update { target_field, filter_field },
                OperationArgs::FilterAndNew(v, nv),
            ) => r == (QueryRequest::UpdateWhereEquals {
                filter_field,
                filter_value: v,
                target_field,
                new_value: nv,
            }),
            (OperationSpec::DeleteBy { filter_field }, OperationArgs::Filter(v)) => r
                == (QueryRequest::DeleteWhereEquals { field: filter_field, value: v }),
            (OperationSpec::Insert, OperationArgs::Companion(nr)) => r == (QueryRequest::Insert {
                new_record: nr,
            }),
            (OperationSpec::GetAll, OperationArgs::NoArgs) => r == QueryRequest::LoadAll,
            (OperationSpec::DeleteAll, OperationArgs::NoArgs) => r == QueryRequest::DeleteAll,
            _ => true,
        },
{
    match (op, args) {
        (OperationSpec::GetBy { return_field: _, filter_field }, OperationArgs::Filter(v)) => {
            QueryRequest::FilterByEquals { field: *filter_field, value: v }
        },
        (OperationSpec::GetRecord { filter_field }, OperationArgs::Filter(v)) => {
            QueryRequest::FilterByEquals { field: *filter_field, value: v }
        },
        (
            OperationSpec::Update { target_field, filter_field },
            OperationArgs::FilterAndNew(v, nv),
        ) => {
            QueryRequest::UpdateWhereEquals {
                filter_field: *filter_field,
                filter_value: v,
                target_field: *target_field,
                new_value: nv,
            }
        },
        (OperationSpec::DeleteBy { filter_field }, OperationArgs::Filter(v)) => {
            QueryRequest::DeleteWhereEquals { field: *filter_field, value: v }
        },
        (OperationSpec::Insert, OperationArgs::Companion(nr)) => {
            QueryRequest::Insert { new_record: nr }
        },
        (OperationSpec::GetAll, OperationArgs::NoArgs) => QueryRequest::LoadAll,
        (OperationSpec::DeleteAll, OperationArgs::NoArgs) => QueryRequest::DeleteAll,
        _ => {
            proof {
                assert(false);
            }
            QueryRequest::LoadAll
        },
    }
}

/// Whether a response has the shape that the capability owes the
/// operation's request: rows for the loads, one row for update and insert,
/// a count for the deletes — or any failure. For a `GetBy`, every returned
/// row must carry a value at the returned field's position.
pub open spec fn response_matches(op: OperationSpec, response: Result<
    ResponseData,
    QueryError,
>) -> bool {
    match response {
        Err(_) => true,
        Ok(ResponseData::Rows(rows)) => match op {
            OperationSpec::GetBy { return_field, filter_field: _ } => forall|k: int|
                0 <= k < rows@.len() ==> return_field < (#[trigger] rows@[k]).values@.len(),
            OperationSpec::GetRecord { .. } => true,
            OperationSpec::GetAll => true,
            _ => false,
        },
        Ok(ResponseData::Row(_)) => op is Update || op is Insert,
        Ok(ResponseData::Count(_)) => op is DeleteBy || op is DeleteAll,
    }
}

/// Turns the capability's response to the operation's request into what the
/// bound operation returns. A failure propagates unmodified whatever the
/// operation; a successful `GetBy` keeps, in row order, the returned
/// field's value of each row; every other operation hands the payload
/// through. In particular an update that matched no row comes back as the
/// capability's own `NotFound`, and a filter that matched no row comes back
/// as an empty row list, not as an error.
pub fn operation_outcome(op: &OperationSpec, response: Result<ResponseData, QueryError>) -> (r:
    Result<OperationValue, QueryError>)
    requires
        response_matches(*op, response),
    ensures
        match response {
            Err(e) => r == Err::<OperationValue, QueryError>(e),
            Ok(data) => match data {
                ResponseData::Rows(rows) => match *op {
                    OperationSpec::GetBy { return_field, filter_field: _ } => r matches Ok(
                        OperationValue::Values(vs),
                    ) && vs@ == rows@.map_values(|rec: Record| rec.values@[return_field as int]),
                    _ => r == Ok::<OperationValue, QueryError>(OperationValue::Rows(rows)),
                },
                ResponseData::Row(rec) => r == Ok::<OperationValue, QueryError>(
                    OperationValue::Row(rec),
                ),
                ResponseData::Count(c) => r == Ok::<OperationValue, QueryError>(
                    OperationValue::Count(c),
                ),
            },
        },
{
    match response {
        Err(e) => Err(e),
        Ok(ResponseData::Rows(rows)) => {
            match op {
                OperationSpec::GetBy { return_field, filter_field: _ } => {
                    let mut rows = rows;
                    let ghost orig = rows@;
                    let mut out: Vec<Value> = Vec::new();
                    while rows.len() > 0
                        invariant
                            rows@ =~= orig.subrange(out@.len() as int, orig.len() as int),
                            out@.len() <= orig.len(),
                            forall|k: int|
                                0 <= k < orig.len() ==> *return_field < (
                                #[trigger] orig[k]).values@.len(),
                            forall|k: int|
                                0 <= k < out@.len() ==> #[trigger] out@[k]
                                    == orig[k].values@[*return_field as int],
                        decreases rows@.len(),
                    {
                        let mut rec = rows.remove(0);
                        let v = rec.values.remove(*return_field);
                        out.push(v);
                        assert(rows@ =~= orig.subrange(out@.len() as int, orig.len() as int));
                    }
                    proof {
                        assert(out@ =~= orig.map_values(
                            |rec: Record| rec.values@[*return_field as int],
                        ));
                    }
                    Ok(OperationValue::Values(out))
                },
                _ => Ok(OperationValue::Rows(rows)),
            }
        },
        Ok(ResponseData::Row(rec)) => Ok(OperationValue::Row(rec)),
        Ok(ResponseData::Count(c)) => Ok(OperationValue::Count(c)),
    }
}


/// The rendered source-text signature of one operation, over the schema's
/// field names, field type names and record name, and the name of the
/// connection type that every generated callable takes first. Filter and
/// new values are taken by reference; the companion value is taken by
/// value.
pub open spec fn signature_text(
    names: Seq<Seq<char>>,
    types: Seq<Seq<char>>,
    record: Seq<char>,
    conn: Seq<char>,
    op: OperationSpec,
) -> Seq<char> {
    match op {
        OperationSpec::GetBy { return_field, filter_field } => "pub fn "@ + op_name(names, op)
            + "(connection: &"@ + conn + ", "@ + query_param_name(names[filter_field as int])
            + ": &"@ + types[filter_field as int] + ") -> QueryResult<Vec<"@
            + types[return_field as int] + ">>"@,
        OperationSpec::GetRecord { filter_field } => "pub fn "@ + op_name(names, op)
            + "(connection: &"@ + conn + ", "@ + query_param_name(names[filter_field as int])
            + ": &"@ + types[filter_field as int] + ") -> QueryResult<Vec<"@ + record + ">>"@,
        OperationSpec::Update { target_field, filter_field } => "pub fn "@ + op_name(names, op)
            + "(connection: &"@ + conn + ", "@ + query_param_name(names[filter_field as int])
            + ": &"@ + types[filter_field as int] + ", "@ + new_param_name(
            names[target_field as int],
        ) + ": &"@ + types[target_field as int] + ") -> QueryResult<"@ + record + ">"@,
        OperationSpec::DeleteBy { filter_field } => "pub fn "@ + op_name(names, op)
            + "(connection: &"@ + conn + ", "@ + query_param_name(names[filter_field as int])
            + ": &"@ + types[filter_field as int] + ") -> QueryResult<usize>"@,
        OperationSpec::Insert => "pub fn "@ + op_name(names, op) + "(connection: &"@ + conn
            + ", "@ + insert_param_name(record) + ": "@ + companion_type_name(record)
            + ") -> QueryResult<"@ + record + ">"@,
        OperationSpec::GetAll => "pub fn "@ + op_name(names, op) + "(connection: &"@ + conn
            + ") -> QueryResult<Vec<"@ + record + ">>"@,
        OperationSpec::DeleteAll => "pub fn "@ + op_name(names, op) + "(connection: &"@ + conn
            + ") -> QueryResult<usize>"@,
    }
}

/// Renders the source-text signature of one operation of the schema, for
/// the given connection type name.
pub fn operation_signature(schema: &RecordSchema, conn: &str, op: &OperationSpec) -> (r: String)
    requires
        op_valid(*op, schema.fields@.len() as usize),
    ensures
        r@ == signature_text(
            schema.field_names(),
            schema.field_types(),
            schema.name@,
            conn@,
            *op,
        ),
{
    proof {
        assert(forall|k: int|
            0 <= k < schema.fields@.len() ==> #[trigger] schema.field_names()[k]
                == schema.fields@[k].name@);
        assert(forall|k: int|
            0 <= k < schema.fields@.len() ==> #[trigger] schema.field_types()[k]
                == schema.fields@[k].ty@);
    }
    let mut s = String::from_str("pub fn ");
    let name = operation_name(schema, op);
    s.append(name.as_str());
    s.append("(connection: &");
    s.append(conn);
    match op {
        OperationSpec::GetBy { return_field, filter_field } => {
            s.append(", ");
            s.append("query_");
            s.append(schema.fields[*filter_field].name.as_str());
            s.append(": &");
            s.append(schema.fields[*filter_field].ty.as_str());
            s.append(") -> QueryResult<Vec<");
            s.append(schema.fields[*return_field].ty.as_str());
            s.append(">>");
            proof {
                assert(s@ =~= signature_text(
                    schema.field_names(),
                    schema.field_types(),
                    schema.name@,
                    conn@,
                    *op,
                ));
            }
        },
        OperationSpec::GetRecord { filter_field } => {
            s.append(", ");
            s.append("query_");
            s.append(schema.fields[*filter_field].name.as_str());
            s.append(": &");
            s.append(schema.fields[*filter_field].ty.as_str());
            s.append(") -> QueryResult<Vec<");
            s.append(schema.name.as_str());
            s.append(">>");
            proof {
                assert(s@ =~= signature_text(
                    schema.field_names(),
                    schema.field_types(),
                    schema.name@,
                    conn@,
                    *op,
                ));
            }
        },
        OperationSpec::Update { target_field, filter_field } => {
            s.append(", ");
            s.append("query_");
            s.append(schema.fields[*filter_field].name.as_str());
            s.append(": &");
            s.append(schema.fields[*filter_field].ty.as_str());
            s.append(", ");
            s.append("new_");
            s.append(schema.fields[*target_field].name.as_str());
            s.append(": &");
            s.append(schema.fields[*target_field].ty.as_str());
            s.append(") -> QueryResult<");
            s.append(schema.name.as_str());
            s.append(">");
            proof {
                assert(s@ =~= signature_text(
                    schema.field_names(),
                    schema.field_types(),
                    schema.name@,
                    conn@,
                    *op,
                ));
            }
        },
        OperationSpec::DeleteBy { filter_field } => {
            s.append(", ");
            s.append("query_");
            s.append(schema.fields[*filter_field].name.as_str());
            s.append(": &");
            s.append(schema.fields[*filter_field].ty.as_str());
            s.append(") -> QueryResult<usize>");
            proof {
                assert(s@ =~= signature_text(
                    schema.field_names(),
                    schema.field_types(),
                    schema.name@,
                    conn@,
                    *op,
                ));
            }
        },
        OperationSpec::Insert => {
            s.append(", ");
            s.append("new_");
            let lowered = crate::names::ascii_lowercase(schema.name.as_str());
            s.append(lowered.as_str());
            s.append(": ");
            s.append("New");
            s.append(schema.name.as_str());
            s.append(") -> QueryResult<");
            s.append(schema.name.as_str());
            s.append(">");
            proof {
                assert(s@ =~= signature_text(
                    schema.field_names(),
                    schema.field_types(),
                    schema.name@,
                    conn@,
                    *op,
                ));
            }
        },
        OperationSpec::GetAll => {
            s.append(") -> QueryResult<Vec<");
            s.append(schema.name.as_str());
            s.append(">>");
            proof {
                assert(s@ =~= signature_text(
                    schema.field_names(),
                    schema.field_types(),
                    schema.name@,
                    conn@,
                    *op,
                ));
            }
        },
        OperationSpec::DeleteAll => {
            s.append(") -> QueryResult<usize>");
            proof {
                assert(s@ =~= signature_text(
                    schema.field_names(),
                    schema.field_types(),
                    schema.name@,
                    conn@,
                    *op,
                ));
            }
        },
    }
    s
}

} // verus!
