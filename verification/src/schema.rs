//! The structural model of source types and of the builder types generated
//! for them.

use vstd::prelude::*;

verus! {

/// An opaque, comparable reference to a type, carried through into generated
/// artifacts without interpretation.
#[derive(Debug)]
pub struct TypeDescriptor {
    pub name: String,
}

/// A named field of a record type.
#[derive(Debug)]
pub struct Field {
    pub name: String,
    pub ty: TypeDescriptor,
}

/// The shape of a source type.  Only a record carries a fixed, named, ordered
/// field list; builder generation is defined for records alone.
#[derive(Debug)]
pub enum TypeShape {
    Record(Vec<Field>),
    Union,
    Opaque,
}

/// The structural description of a source type, as a schema provider supplies
/// it: a name and a shape.
#[derive(Debug)]
pub struct TypeDefinition {
    pub name: String,
    pub shape: TypeShape,
}

/// One field of a generated builder: the source field's type wrapped in an
/// absent-or-present container.
#[derive(Debug)]
pub struct OptionalField {
    pub name: String,
    pub inner_ty: TypeDescriptor,
}

/// The generated builder type: one optional field per source field, same
/// names, same order.
#[derive(Debug)]
pub struct BuilderDefinition {
    pub name: String,
    pub fields: Vec<OptionalField>,
}

/// Refusal to generate: the source type is not record-shaped.  The variant
/// records which non-record shape was seen.
#[derive(Debug, PartialEq, Eq, Structural)]
pub enum SchemaShapeError {
    UnionShape,
    OpaqueShape,
}

impl TypeDefinition {
    /// Builder generation is defined exactly for this shape.
    pub open spec fn is_record(&self) -> bool {
        self.shape is Record
    }

    /// The source field list, meaningful only for a record.
    pub open spec fn spec_fields(&self) -> Seq<Field> {
        self.shape->0@
    }
}

/// The name every artifact generated from a source type carries: the source
/// type's name followed by "Builder".
pub open spec fn spec_builder_name(name: Seq<char>) -> Seq<char> {
    name + "Builder"@
}

/// Append the builder suffix to a source type's name.
pub fn builder_name(name: &String) -> (r: String)
    ensures
        r@ == spec_builder_name(name@),
{
    name.clone().concat("Builder")
}

} // verus!
