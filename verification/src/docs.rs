//! Documentation synthesis: the stable, purely presentational text block
//! rendered for each operation.
//!
//! Each block is a title line, a blank line, an `Arguments` heading, a blank
//! line, one `- ` bullet line per parameter, and a closing blank line. The
//! text is derived from the same names the name synthesizer computes, holds
//! no independent state, and is identical across regenerations of the same
//! schema.

use vstd::prelude::*;
use vstd::string::*;
use crate::names::lower_seq;
use crate::operations::{op_valid, OperationSpec};
use crate::schema::RecordSchema;

verus! {

/// The line break of the documentation block.
pub open spec fn doc_break() -> Seq<char> {
    "\n"@
}

/// The documentation block of one operation, over the schema's field names
/// and record name.
pub open spec fn doc_text(names: Seq<Seq<char>>, record: Seq<char>, op: OperationSpec) -> Seq<
    char,
> {
    match op {
        OperationSpec::GetBy { return_field, filter_field } => "Get "@
            + names[return_field as int] + "s by filtering `"@ + names[filter_field as int] + "`"@
            + doc_break() + doc_break() + "Arguments"@ + doc_break() + doc_break()
            + "- The `query_"@ + names[filter_field as int] + "` argument is the `"@
            + names[filter_field as int] + "` value to filter by"@ + doc_break() + doc_break(),
        OperationSpec::GetRecord { filter_field } => "Get `"@ + record + "` by filtering `"@
            + names[filter_field as int] + "`"@ + doc_break() + doc_break() + "Arguments"@
            + doc_break() + doc_break() + "- The `query_"@ + names[filter_field as int]
            + "` argument is the `"@ + names[filter_field as int] + "` value to filter by"@
            + doc_break() + doc_break(),
        OperationSpec::Update { target_field, filter_field } => "Update "@
            + names[target_field as int] + "s by `"@ + names[filter_field as int] + "`"@
            + doc_break() + doc_break() + "Arguments"@ + doc_break() + doc_break()
            + "- The `query_"@ + names[filter_field as int] + "` argument is the `"@
            + names[filter_field as int] + "` value to filter by"@ + doc_break() + "- The `new_"@
            + names[target_field as int] + "` argument is the new `"@
            + names[target_field as int] + "` value"@ + doc_break() + doc_break(),
        OperationSpec::DeleteBy { filter_field } => "Delete `"@ + record + "` by filtering `"@
            + names[filter_field as int] + "`"@ + doc_break() + doc_break() + "Arguments"@
            + doc_break() + doc_break() + "- The `query_"@ + names[filter_field as int]
            + "` argument is the `"@ + names[filter_field as int] + "` value to filter by"@
            + doc_break() + doc_break(),
        OperationSpec::Insert => "Insert a new `"@ + record + "`"@ + doc_break() + doc_break()
            + "Arguments"@ + doc_break() + doc_break() + "- The `new_"@ + lower_seq(record)
            + "` argument is the `New"@ + record + "` value to insert"@ + doc_break()
            + doc_break(),
        OperationSpec::GetAll => "Get all data"@ + doc_break() + doc_break() + "Arguments"@
            + doc_break() + doc_break() + doc_break(),
        OperationSpec::DeleteAll => "Delete all data"@ + doc_break() + doc_break() + "Arguments"@
            + doc_break() + doc_break() + doc_break(),
    }
}

/// Renders the documentation block of one operation of the schema.
pub fn operation_doc(schema: &RecordSchema, op: &OperationSpec) -> (r: String)
    requires
        op_valid(*op, schema.fields@.len() as usize),
    ensures
        r@ == doc_text(schema.field_names(), schema.name@, *op),
{
    proof {
        assert(forall|k: int|
            0 <= k < schema.fields@.len() ==> #[trigger] schema.field_names()[k]
                == schema.fields@[k].name@);
    }
    match op {
        OperationSpec::GetBy { return_field, filter_field } => {
            let mut s = String::from_str("Get ");
            s.append(schema.fields[*return_field].name.as_str());
            s.append("s by filtering `");
            s.append(schema.fields[*filter_field].name.as_str());
            s.append("`");
            s.append("\n");
            s.append("\n");
            s.append("Arguments");
            s.append("\n");
            s.append("\n");
            s.append("- The `query_");
            s.append(schema.fields[*filter_field].name.as_str());
            s.append("` argument is the `");
            s.append(schema.fields[*filter_field].name.as_str());
            s.append("` value to filter by");
            s.append("\n");
            s.append("\n");
            s
        },
        OperationSpec::GetRecord { filter_field } => {
            let mut s = String::from_str("Get `");
            s.append(schema.name.as_str());
            s.append("` by filtering `");
            s.append(schema.fields[*filter_field].name.as_str());
            s.append("`");
            s.append("\n");
            s.append("\n");
            s.append("Arguments");
            s.append("\n");
            s.append("\n");
            s.append("- The `query_");
            s.append(schema.fields[*filter_field].name.as_str());
            s.append("` argument is the `");
            s.append(schema.fields[*filter_field].name.as_str());
            s.append("` value to filter by");
            s.append("\n");
            s.append("\n");
            s
        },
        OperationSpec::Update { target_field, filter_field } => {
            let mut s = String::from_str("Update ");
            s.append(schema.fields[*target_field].name.as_str());
            s.append("s by `");
            s.append(schema.fields[*filter_field].name.as_str());
            s.append("`");
            s.append("\n");
            s.append("\n");
            s.append("Arguments");
            s.append("\n");
            s.append("\n");
            s.append("- The `query_");
            s.append(schema.fields[*filter_field].name.as_str());
            s.append("` argument is the `");
            s.append(schema.fields[*filter_field].name.as_str());
            s.append("` value to filter by");
            s.append("\n");
            s.append("- The `new_");
            s.append(schema.fields[*target_field].name.as_str());
            s.append("` argument is the new `");
            s.append(schema.fields[*target_field].name.as_str());
            s.append("` value");
            s.append("\n");
            s.append("\n");
            s
        },
        OperationSpec::DeleteBy { filter_field } => {
            let mut s = String::from_str("Delete `");
            s.append(schema.name.as_str());
            s.append("` by filtering `");
            s.append(schema.fields[*filter_field].name.as_str());
            s.append("`");
            s.append("\n");
            s.append("\n");
            s.append("Arguments");
            s.append("\n");
            s.append("\n");
            s.append("- The `query_");
            s.append(schema.fields[*filter_field].name.as_str());
            s.append("` argument is the `");
            s.append(schema.fields[*filter_field].name.as_str());
            s.append("` value to filter by");
            s.append("\n");
            s.append("\n");
            s
        },
        OperationSpec::Insert => {
            let mut s = String::from_str("Insert a new `");
            s.append(schema.name.as_str());
            s.append("`");
            s.append("\n");
            s.append("\n");
            s.append("Arguments");
            s.append("\n");
            s.append("\n");
            s.append("- The `new_");
            let lowered = crate::names::ascii_lowercase(schema.name.as_str());
            s.append(lowered.as_str());
            s.append("` argument is the `New");
            s.append(schema.name.as_str());
            s.append("` value to insert");
            s.append("\n");
            s.append("\n");
            s
        },
        OperationSpec::GetAll => {
            let mut s = String::from_str("Get all data");
            s.append("\n");
            s.append("\n");
            s.append("Arguments");
            s.append("\n");
            s.append("\n");
            s.append("\n");
            s
        },
        OperationSpec::DeleteAll => {
            let mut s = String::from_str("Delete all data");
            s.append("\n");
            s.append("\n");
            s.append("Arguments");
            s.append("\n");
            s.append("\n");
            s.append("\n");
            s
        },
    }
}

} // verus!
