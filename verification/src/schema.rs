//! The machine-readable parameter schema a tool advertises: field
//! names, types, free-text descriptions, and which fields are
//! required.

use vstd::prelude::*;

verus! {

/// The JSON type of a schema field.
#[derive(Debug, Clone, Copy, PartialEq, Eq, Structural)]
pub enum FieldType {
    Text,
    TextArray,
    Boolean,
    Integer,
    Number,
}

/// One parameter in a tool's schema.
#[derive(Debug, Clone)]
pub struct SchemaField {
    pub name: String,
    pub ty: FieldType,
    pub description: String,
    pub required: bool,
}

/// Mathematical image of a `SchemaField`.
pub struct SchemaFieldV {
    pub name: Seq<char>,
    pub ty: FieldType,
    pub description: Seq<char>,
    pub required: bool,
}

impl View for SchemaField {
    type V = SchemaFieldV;

    open spec fn view(&self) -> SchemaFieldV {
        SchemaFieldV {
            name: self.name@,
            ty: self.ty,
            description: self.description@,
            required: self.required,
        }
    }
}

impl DeepView for SchemaField {
    type V = SchemaFieldV;

    open spec fn deep_view(&self) -> SchemaFieldV {
        self.view()
    }
}

/// A schema field as a mathematical value.
pub open spec fn field_v(name: Seq<char>, ty: FieldType, description: Seq<char>, required: bool) -> SchemaFieldV {
    SchemaFieldV { name, ty, description, required }
}

/// Appends one field to a schema under construction.
pub fn push_field(
    schema: &mut Vec<SchemaField>,
    name: &str,
    ty: FieldType,
    description: &str,
    required: bool,
)
    ensures
        final(schema).deep_view() == old(schema).deep_view().push(
            field_v(name@, ty, description@, required),
        ),
{
    let ghost pre = schema.deep_view();
    schema.push(
        SchemaField { name: name.to_owned(), ty, description: description.to_owned(), required },
    );
    proof {
        assert(schema.deep_view() =~= pre.push(field_v(name@, ty, description@, required)));
    }
}

/// The identity and advertised surface of one registered tool.
#[derive(Debug)]
pub struct ToolDescriptor {
    pub name: String,
    pub title: String,
    pub description: String,
    pub schema: Vec<SchemaField>,
}

} // verus!
