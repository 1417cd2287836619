use builder::generate::gen_build_fn;
use builder::generate::gen_builder;
use builder::generate::gen_builder_instance;
use builder::generate::gen_setters_fn;
use builder::schema::Field;
use builder::schema::SchemaShapeError;
use builder::schema::TypeDefinition;
use builder::schema::TypeDescriptor;
use builder::schema::TypeShape;
use builder::schema::builder_name;

fn field(name: &str, ty: &str) -> Field {
    Field { name: name.to_string(), ty: TypeDescriptor { name: ty.to_string() } }
}

fn record(name: &str, fields: Vec<Field>) -> TypeDefinition {
    TypeDefinition { name: name.to_string(), shape: TypeShape::Record(fields) }
}

fn point() -> TypeDefinition {
    record("Point", vec![field("x", "Integer"), field("y", "Integer")])
}

#[test]
fn builder_name_appends_suffix() {
    assert_eq!(builder_name(&"Point".to_string()), "PointBuilder");
    assert_eq!(builder_name(&"".to_string()), "Builder");
}

#[test]
fn point_builder_definition() {
    let bd = gen_builder(&point()).unwrap();
    assert_eq!(bd.name, "PointBuilder");
    assert_eq!(bd.fields.len(), 2);
    assert_eq!(bd.fields[0].name, "x");
    assert_eq!(bd.fields[0].inner_ty.name, "Integer");
    assert_eq!(bd.fields[1].name, "y");
    assert_eq!(bd.fields[1].inner_ty.name, "Integer");
}

#[test]
fn bijection_keeps_count_names_and_order() {
    let td = record(
        "Account",
        vec![field("id", "Uuid"), field("owner", "Name"), field("balance", "Amount")],
    );
    let bd = gen_builder(&td).unwrap();
    assert_eq!(bd.name, "AccountBuilder");
    assert_eq!(bd.fields.len(), 3);
    let names: Vec<&str> = bd.fields.iter().map(|f| f.name.as_str()).collect();
    assert_eq!(names, ["id", "owner", "balance"]);
    let types: Vec<&str> = bd.fields.iter().map(|f| f.inner_ty.name.as_str()).collect();
    assert_eq!(types, ["Uuid", "Name", "Amount"]);
}

#[test]
fn one_setter_per_field_with_unwrapped_type() {
    let td = record("Account", vec![field("id", "Uuid"), field("owner", "Name")]);
    let setters = gen_setters_fn(&td).unwrap();
    assert_eq!(setters.len(), 2);
    assert_eq!(setters[0].field_name, "id");
    assert_eq!(setters[0].param_ty.name, "Uuid");
    assert_eq!(setters[1].field_name, "owner");
    assert_eq!(setters[1].param_ty.name, "Name");
}

#[test]
fn default_instance_lists_every_field_absent() {
    let op = gen_builder_instance(&point()).unwrap();
    assert_eq!(op.builder_name, "PointBuilder");
    assert_eq!(op.absent_fields, ["x", "y"]);
}

#[test]
fn build_op_targets_source_type_in_order() {
    let op = gen_build_fn(&point()).unwrap();
    assert_eq!(op.target_name, "Point");
    assert_eq!(op.field_names, ["x", "y"]);
}

#[test]
fn derive_combines_all_artifacts() {
    let g = builder::derive(&point()).unwrap();
    assert_eq!(g.builder.name, "PointBuilder");
    assert_eq!(g.builder.fields.len(), 2);
    assert_eq!(g.default_instance.absent_fields, ["x", "y"]);
    assert_eq!(g.setters.len(), 2);
    assert_eq!(g.build.target_name, "Point");
    assert_eq!(g.build.field_names, ["x", "y"]);
}

#[test]
fn union_shape_is_refused() {
    let td = TypeDefinition { name: "Choice".to_string(), shape: TypeShape::Union };
    assert_eq!(gen_builder(&td).unwrap_err(), SchemaShapeError::UnionShape);
    assert_eq!(gen_builder_instance(&td).unwrap_err(), SchemaShapeError::UnionShape);
    assert_eq!(gen_setters_fn(&td).unwrap_err(), SchemaShapeError::UnionShape);
    assert_eq!(gen_build_fn(&td).unwrap_err(), SchemaShapeError::UnionShape);
    assert_eq!(builder::derive(&td).unwrap_err(), SchemaShapeError::UnionShape);
}

#[test]
fn opaque_shape_is_refused() {
    let td = TypeDefinition { name: "Raw".to_string(), shape: TypeShape::Opaque };
    assert_eq!(gen_builder(&td).unwrap_err(), SchemaShapeError::OpaqueShape);
    assert_eq!(builder::derive(&td).unwrap_err(), SchemaShapeError::OpaqueShape);
}

#[test]
fn empty_record_generates_empty_builder() {
    let td = record("Unit", vec![]);
    let g = builder::derive(&td).unwrap();
    assert_eq!(g.builder.name, "UnitBuilder");
    assert_eq!(g.builder.fields.len(), 0);
    assert_eq!(g.default_instance.absent_fields.len(), 0);
    assert_eq!(g.setters.len(), 0);
    assert_eq!(g.build.field_names.len(), 0);
}
