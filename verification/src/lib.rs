//! Generation of builder companions for record types.
//!
//! Given the structural description of a record type, the crate synthesizes a
//! builder: a field-by-field assembler that accumulates values and produces a
//! complete instance of the described type on demand.  The description of the
//! source type arrives as a plain structural value and the generated artifacts
//! leave as plain structural values; reading source text and splicing generated
//! text back into a program are a host's concern, not this crate's.
//!
//! Generation is defined for record shapes only.  A description of a union or
//! of an opaque type is reported as a [`schema::SchemaShapeError`] before any
//! generation is attempted, rather than being passed over silently.

use vstd::prelude::*;

pub mod generate;
pub mod instance;
pub mod laws;
pub mod schema;

use crate::generate::GeneratedArtifacts;
use crate::generate::build_op_ok;
use crate::generate::builder_shape_ok;
use crate::generate::default_instance_ok;
use crate::generate::gen_build_fn;
use crate::generate::gen_builder;
use crate::generate::gen_builder_instance;
use crate::generate::gen_setters_fn;
use crate::generate::setters_ok;
use crate::schema::SchemaShapeError;
use crate::schema::TypeDefinition;

verus! {

/// Run all four generators over one source type description and collect the
/// generated artifacts, or refuse a description that is not record-shaped
/// before any generation is attempted.
pub fn derive(input: &TypeDefinition) -> (r: Result<GeneratedArtifacts, SchemaShapeError>)
    ensures
        r is Ok <==> input.is_record(),
        r matches Ok(g) ==> {
            &&& builder_shape_ok(*input, g.builder)
            &&& default_instance_ok(*input, g.default_instance)
            &&& setters_ok(*input, g.setters@)
            &&& build_op_ok(*input, g.build)
        },
        input.shape is Union ==> r == Err::<GeneratedArtifacts, _>(SchemaShapeError::UnionShape),
        input.shape is Opaque ==> r == Err::<GeneratedArtifacts, _>(SchemaShapeError::OpaqueShape),
{
    let builder = match gen_builder(input) {
        Ok(b) => b,
        Err(e) => {
            return Err(e);
        },
    };
    let default_instance = match gen_builder_instance(input) {
        Ok(op) => op,
        Err(e) => {
            return Err(e);
        },
    };
    let setters = match gen_setters_fn(input) {
        Ok(ops) => ops,
        Err(e) => {
            return Err(e);
        },
    };
    let build = match gen_build_fn(input) {
        Ok(op) => op,
        Err(e) => {
            return Err(e);
        },
    };
    Ok(GeneratedArtifacts { builder, default_instance, setters, build })
}

} // verus!
