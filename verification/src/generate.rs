//! The four generators: builder shape, default instance, setters, and
//! finalize.  Each consumes the same source type description independently
//! and produces one structural artifact; an emission sink turns the artifacts
//! into program text elsewhere.

use vstd::prelude::*;

use crate::schema::BuilderDefinition;
use crate::schema::OptionalField;
use crate::schema::SchemaShapeError;
use crate::schema::TypeDefinition;
use crate::schema::TypeDescriptor;
use crate::schema::TypeShape;
use crate::schema::builder_name;
use crate::schema::spec_builder_name;

verus! {

/// A generated literal construction expression for a builder's initial
/// value: every listed field explicitly set to absent.
#[derive(Debug)]
pub struct DefaultInstanceOp {
    pub builder_name: String,
    pub absent_fields: Vec<String>,
}

/// A generated mutator for one field: named after the field, it takes the
/// builder and one value of the field's original, unwrapped type, stores the
/// value as present, and hands the builder back for chaining.
#[derive(Debug)]
pub struct SetterOp {
    pub field_name: String,
    pub param_ty: TypeDescriptor,
}

/// The generated finalize operation: it reads every listed field in
/// declaration order and assembles a value of the named target type, or
/// fails on the first absent field.
#[derive(Debug)]
pub struct BuildOp {
    pub target_name: String,
    pub field_names: Vec<String>,
}

/// Everything generated for one source record.
#[derive(Debug)]
pub struct GeneratedArtifacts {
    pub builder: BuilderDefinition,
    pub default_instance: DefaultInstanceOp,
    pub setters: Vec<SetterOp>,
    pub build: BuildOp,
}

/// The builder definition mirrors the source record: it carries the
/// suffixed name and exactly one optional field per source field, with the
/// same names, in the same order, each wrapping the source field's type.
pub open spec fn builder_shape_ok(td: TypeDefinition, bd: BuilderDefinition) -> bool {
    &&& bd.name@ == spec_builder_name(td.name@)
    &&& bd.fields@.len() == td.spec_fields().len()
    &&& forall|i: int|
        0 <= i < bd.fields@.len() ==> (#[trigger] bd.fields@[i]).name@
            == td.spec_fields()[i].name@
    &&& forall|i: int|
        0 <= i < bd.fields@.len() ==> (#[trigger] bd.fields@[i]).inner_ty.name@
            == td.spec_fields()[i].ty.name@
}

/// The default instance names the builder and lists every source field,
/// in order, as absent.
pub open spec fn default_instance_ok(td: TypeDefinition, op: DefaultInstanceOp) -> bool {
    &&& op.builder_name@ == spec_builder_name(td.name@)
    &&& op.absent_fields@.len() == td.spec_fields().len()
    &&& forall|i: int|
        0 <= i < op.absent_fields@.len() ==> (#[trigger] op.absent_fields@[i])@
            == td.spec_fields()[i].name@
}

/// Exactly one setter per source field, in declaration order, each named
/// after its field and taking the field's original, unwrapped type.
pub open spec fn setters_ok(td: TypeDefinition, ops: Seq<SetterOp>) -> bool {
    &&& ops.len() == td.spec_fields().len()
    &&& forall|i: int|
        0 <= i < ops.len() ==> (#[trigger] ops[i]).field_name@ == td.spec_fields()[i].name@
    &&& forall|i: int|
        0 <= i < ops.len() ==> (#[trigger] ops[i]).param_ty.name@ == td.spec_fields()[i].ty.name@
}

/// The finalize operation targets the source type and reads every source
/// field, in declaration order.
pub open spec fn build_op_ok(td: TypeDefinition, op: BuildOp) -> bool {
    &&& op.target_name@ == td.name@
    &&& op.field_names@.len() == td.spec_fields().len()
    &&& forall|i: int|
        0 <= i < op.field_names@.len() ==> (#[trigger] op.field_names@[i])@
            == td.spec_fields()[i].name@
}

/// Derive the builder type's own field layout from the source record.
pub fn gen_builder(input: &TypeDefinition) -> (r: Result<BuilderDefinition, SchemaShapeError>)
    ensures
        r is Ok <==> input.is_record(),
        r matches Ok(bd) ==> builder_shape_ok(*input, bd),
        input.shape is Union ==> r == Err::<BuilderDefinition, _>(SchemaShapeError::UnionShape),
        input.shape is Opaque ==> r == Err::<BuilderDefinition, _>(SchemaShapeError::OpaqueShape),
{
    match &input.shape {
        TypeShape::Record(fields) => {
            let n = fields.len();
            let mut out: Vec<OptionalField> = Vec::new();
            let mut i: usize = 0;
            while i < n
                invariant
                    n == fields@.len(),
                    i <= n,
                    out@.len() == i as int,
                    forall|j: int|
                        0 <= j < i ==> (#[trigger] out@[j]).name@ == fields@[j].name@,
                    forall|j: int|
                        0 <= j < i ==> (#[trigger] out@[j]).inner_ty.name@ == fields@[j].ty.name@,
                decreases n - i,
            {
                let f = &fields[i];
                out.push(OptionalField {
                    name: f.name.clone(),
                    inner_ty: TypeDescriptor { name: f.ty.name.clone() },
                });
                i = i + 1;
            }
            Ok(BuilderDefinition { name: builder_name(&input.name), fields: out })
        },
        TypeShape::Union => Err(SchemaShapeError::UnionShape),
        TypeShape::Opaque => Err(SchemaShapeError::OpaqueShape),
    }
}

/// Derive the literal construction expression for the empty builder, the
/// required initial state of any builder instance.
pub fn gen_builder_instance(input: &TypeDefinition) -> (r: Result<
    DefaultInstanceOp,
    SchemaShapeError,
>)
    ensures
        r is Ok <==> input.is_record(),
        r matches Ok(op) ==> default_instance_ok(*input, op),
        input.shape is Union ==> r == Err::<DefaultInstanceOp, _>(SchemaShapeError::UnionShape),
        input.shape is Opaque ==> r == Err::<DefaultInstanceOp, _>(SchemaShapeError::OpaqueShape),
{
    match &input.shape {
        TypeShape::Record(fields) => {
            let n = fields.len();
            let mut absent: Vec<String> = Vec::new();
            let mut i: usize = 0;
            while i < n
                invariant
                    n == fields@.len(),
                    i <= n,
                    absent@.len() == i as int,
                    forall|j: int|
                        0 <= j < i ==> (#[trigger] absent@[j])@ == fields@[j].name@,
                decreases n - i,
            {
                absent.push(fields[i].name.clone());
                i = i + 1;
            }
            Ok(DefaultInstanceOp {
                builder_name: builder_name(&input.name),
                absent_fields: absent,
            })
        },
        TypeShape::Union => Err(SchemaShapeError::UnionShape),
        TypeShape::Opaque => Err(SchemaShapeError::OpaqueShape),
    }
}

/// Derive one mutator operation per source field.
pub fn gen_setters_fn(input: &TypeDefinition) -> (r: Result<Vec<SetterOp>, SchemaShapeError>)
    ensures
        r is Ok <==> input.is_record(),
        r matches Ok(ops) ==> setters_ok(*input, ops@),
        input.shape is Union ==> r == Err::<Vec<SetterOp>, _>(SchemaShapeError::UnionShape),
        input.shape is Opaque ==> r == Err::<Vec<SetterOp>, _>(SchemaShapeError::OpaqueShape),
{
    match &input.shape {
        TypeShape::Record(fields) => {
            let n = fields.len();
            let mut ops: Vec<SetterOp> = Vec::new();
            let mut i: usize = 0;
            while i < n
                invariant
                    n == fields@.len(),
                    i <= n,
                    ops@.len() == i as int,
                    forall|j: int|
                        0 <= j < i ==> (#[trigger] ops@[j]).field_name@ == fields@[j].name@,
                    forall|j: int|
                        0 <= j < i ==> (#[trigger] ops@[j]).param_ty.name@ == fields@[j].ty.name@,
                decreases n - i,
            {
                let f = &fields[i];
                ops.push(SetterOp {
                    field_name: f.name.clone(),
                    param_ty: TypeDescriptor { name: f.ty.name.clone() },
                });
                i = i + 1;
            }
            Ok(ops)
        },
        TypeShape::Union => Err(SchemaShapeError::UnionShape),
        TypeShape::Opaque => Err(SchemaShapeError::OpaqueShape),
    }
}

/// Derive the finalize operation that validates completeness and assembles
/// the target value.
pub fn gen_build_fn(input: &TypeDefinition) -> (r: Result<BuildOp, SchemaShapeError>)
    ensures
        r is Ok <==> input.is_record(),
        r matches Ok(op) ==> build_op_ok(*input, op),
        input.shape is Union ==> r == Err::<BuildOp, _>(SchemaShapeError::UnionShape),
        input.shape is Opaque ==> r == Err::<BuildOp, _>(SchemaShapeError::OpaqueShape),
{
    match &input.shape {
        TypeShape::Record(fields) => {
            let n = fields.len();
            let mut names: Vec<String> = Vec::new();
            let mut i: usize = 0;
            while i < n
                invariant
                    n == fields@.len(),
                    i <= n,
                    names@.len() == i as int,
                    forall|j: int|
                        0 <= j < i ==> (#[trigger] names@[j])@ == fields@[j].name@,
                decreases n - i,
            {
                names.push(fields[i].name.clone());
                i = i + 1;
            }
            Ok(BuildOp { target_name: input.name.clone(), field_names: names })
        },
        TypeShape::Union => Err(SchemaShapeError::UnionShape),
        TypeShape::Opaque => Err(SchemaShapeError::OpaqueShape),
    }
}

} // verus!
