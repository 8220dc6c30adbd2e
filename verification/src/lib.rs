//! Derives the full grammar of accessor and mutator operations for a flat
//! record type: given the ordered, named, typed fields of a record meant to
//! live in a single relational table, the library enumerates every
//! get/filter/update/delete operation over it, synthesizes their names and
//! parameter lists, renders their documentation, and gives each operation its
//! meaning against an abstract query-execution capability.

pub mod docs;
pub mod emit;
pub mod names;
pub mod operations;
pub mod schema;

use vstd::prelude::*;
use crate::operations::{enumerate_operations, op_sequence, OperationSpec};
use crate::schema::{
    extract_schema, has_positional_field, RecordDeclaration, RecordSchema, SchemaError,
};

verus! {

/// The result of one generation pass: the normalized schema and its full
/// ordered operation sequence. Both are derived once from the declaration
/// and never mutated.
pub struct Generated {
    /// The normalized schema.
    pub schema: RecordSchema,
    /// The generated operations, in generation order.
    pub operations: Vec<OperationSpec>,
}

/// Runs the whole generation pass: normalizes the declaration into a
/// schema and enumerates its operation sequence. A declaration with no
/// fields fails as [`SchemaError::EmptySchema`] and one with positional
/// fields as [`SchemaError::UnsupportedSchema`]; either failure is fatal
/// and produces no operations at all.
pub fn generate(decl: &RecordDeclaration) -> (r: Result<Generated, SchemaError>)
    ensures
        decl.fields@.len() == 0 ==> r == Err::<Generated, SchemaError>(SchemaError::EmptySchema),
        decl.fields@.len() > 0 && has_positional_field(decl) ==> r == Err::<
            Generated,
            SchemaError,
        >(SchemaError::UnsupportedSchema),
        decl.fields@.len() > 0 && !has_positional_field(decl) ==> r is Ok,
        r is Ok ==> {
            let g = r->Ok_0;
            &&& g.schema.name@ == decl.name@
            &&& g.schema.fields@.len() == decl.fields@.len()
            &&& forall|k: int|
                0 <= k < decl.fields@.len() ==> (#[trigger] g.schema.fields@[k]).name@
                    == decl.fields@[k].name.unwrap()@ && g.schema.fields@[k].ty@
                    == decl.fields@[k].ty@
            &&& g.schema.wf()
            &&& g.operations@ == op_sequence(g.schema.fields@.len() as usize)
        },
{
    let schema = match extract_schema(decl) {
        Ok(schema) => schema,
        Err(e) => {
            return Err(e);
        },
    };
    let operations = enumerate_operations(&schema);
    Ok(Generated { schema, operations })
}

} // verus!
