//! Turning a record type declaration into a normalized schema.
//!
//! A declaration lists the record's fields as they were written down, where a
//! field may be positional (without a name). The extractor accepts only
//! declarations whose fields are all named and rejects declarations with no
//! fields at all; what it hands on is a [`RecordSchema`], the one shape the
//! rest of the generator works on.

use vstd::prelude::*;

verus! {

/// Why a record declaration cannot be turned into a schema.
#[derive(Clone, Copy, Debug, PartialEq, Eq, Structural)]
pub enum SchemaError {
    /// The declaration has no fields at all.
    EmptySchema,
    /// The declaration uses positional (unnamed) fields.
    UnsupportedSchema,
}

/// One field of a record declaration; a positional field has no name.
pub struct FieldDeclaration {
    /// The field's name, absent for a positional field.
    pub name: Option<String>,
    /// The name of the field's declared type.
    pub ty: String,
}

/// A record type declaration as handed to the generator: the record's name
/// and its fields in the order they were declared.
pub struct RecordDeclaration {
    /// The record type's name.
    pub name: String,
    /// The declared fields, in declaration order.
    pub fields: Vec<FieldDeclaration>,
}

/// One normalized field: its name and the name of its declared type.
pub struct Field {
    /// The field's name.
    pub name: String,
    /// The name of the field's declared type.
    pub ty: String,
}

/// A normalized schema: the record's name and its named, typed fields in
/// declaration order. A field's identity is its position in this order; the
/// order drives both the enumeration order and the generated names.
pub struct RecordSchema {
    /// The record type's name.
    pub name: String,
    /// The fields, in declaration order, each with a name.
    pub fields: Vec<Field>,
}

impl RecordSchema {
    /// The field names, in declaration order.
    pub open spec fn field_names(&self) -> Seq<Seq<char>> {
        self.fields@.map_values(|f: Field| f.name@)
    }

    /// The names of the fields' declared types, in declaration order.
    pub open spec fn field_types(&self) -> Seq<Seq<char>> {
        self.fields@.map_values(|f: Field| f.ty@)
    }

    /// A schema is well formed when it has at least one field.
    pub open spec fn wf(&self) -> bool {
        self.fields@.len() >= 1
    }
}

/// Whether some declared field is positional (has no name).
pub open spec fn has_positional_field(decl: &RecordDeclaration) -> bool {
    exists|k: int| 0 <= k < decl.fields@.len() && decl.fields@[k].name is None
}

/// Normalizes a declaration into a schema: rejects a declaration with no
/// fields as [`SchemaError::EmptySchema`] and one with positional fields as
/// [`SchemaError::UnsupportedSchema`]; otherwise keeps every field's name and
/// type, in declaration order.
pub fn extract_schema(decl: &RecordDeclaration) -> (r: Result<RecordSchema, SchemaError>)
    ensures
        decl.fields@.len() == 0 ==> r == Err::<RecordSchema, SchemaError>(
            SchemaError::EmptySchema,
        ),
        decl.fields@.len() > 0 && has_positional_field(decl) ==> r == Err::<
            RecordSchema,
            SchemaError,
        >(SchemaError::UnsupportedSchema),
        decl.fields@.len() > 0 && !has_positional_field(decl) ==> r is Ok,
        r is Ok ==> {
            let s = r->Ok_0;
            &&& s.name@ == decl.name@
            &&& s.fields@.len() == decl.fields@.len()
            &&& forall|k: int|
                0 <= k < decl.fields@.len() ==> (#[trigger] s.fields@[k]).name@
                    == decl.fields@[k].name.unwrap()@ && s.fields@[k].ty@ == decl.fields@[k].ty@
            &&& s.wf()
        },
{
    if decl.fields.len() == 0 {
        return Err(SchemaError::EmptySchema);
    }
    let mut fields: Vec<Field> = Vec::new();
    let mut k: usize = 0;
    while k < decl.fields.len()
        invariant
            k <= decl.fields@.len(),
            fields@.len() == k,
            forall|m: int| 0 <= m < k ==> decl.fields@[m].name is Some,
            forall|m: int|
                0 <= m < k ==> (#[trigger] fields@[m]).name@ == decl.fields@[m].name.unwrap()@
                    && fields@[m].ty@ == decl.fields@[m].ty@,
        decreases decl.fields@.len() - k,
    {
        match &decl.fields[k].name {
            Some(name) => {
                let field = Field { name: name.clone(), ty: decl.fields[k].ty.clone() };
                fields.push(field);
            },
            None => {
                return Err(SchemaError::UnsupportedSchema);
            },
        }
        k += 1;
    }
    Ok(RecordSchema { name: decl.name.clone(), fields })
}

} // verus!
