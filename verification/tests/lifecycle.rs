use builder::instance::BuilderState;
use builder::schema::Field;
use builder::schema::TypeDefinition;
use builder::schema::TypeDescriptor;
use builder::schema::TypeShape;

fn field(name: &str, ty: &str) -> Field {
    Field { name: name.to_string(), ty: TypeDescriptor { name: ty.to_string() } }
}

fn record(name: &str, fields: Vec<Field>) -> TypeDefinition {
    TypeDefinition { name: name.to_string(), shape: TypeShape::Record(fields) }
}

fn point_builder() -> BuilderState<i64> {
    let g = builder::derive(&record("Point", vec![field("x", "Integer"), field("y", "Integer")]))
        .unwrap();
    BuilderState::from_default(&g.default_instance)
}

#[test]
fn point_round_trip() {
    assert_eq!(point_builder().set(0, 3).set(1, 4).build().unwrap(), vec![3, 4]);
}

#[test]
fn missing_field_is_named() {
    let e = point_builder().set(0, 3).build().unwrap_err();
    assert_eq!(e.missing_field, "y");
}

#[test]
fn empty_builder_names_first_missing_field() {
    let b = point_builder();
    assert!(!b.is_complete());
    let e = b.build().unwrap_err();
    assert_eq!(e.missing_field, "x");
}

#[test]
fn setters_chain_in_any_order() {
    let xy = point_builder().set(0, 3).set(1, 4).build().unwrap();
    let yx = point_builder().set(1, 4).set(0, 3).build().unwrap();
    assert_eq!(xy, yx);
    assert_eq!(xy, vec![3, 4]);
}

#[test]
fn all_orders_of_three_setters_agree() {
    let g = builder::derive(&record(
        "Triple",
        vec![field("a", "Integer"), field("b", "Integer"), field("c", "Integer")],
    ))
    .unwrap();
    let orders: [[usize; 3]; 6] =
        [[0, 1, 2], [0, 2, 1], [1, 0, 2], [1, 2, 0], [2, 0, 1], [2, 1, 0]];
    let values: [i64; 3] = [10, 20, 30];
    for order in orders {
        let mut b: BuilderState<i64> = BuilderState::from_default(&g.default_instance);
        for i in order {
            b.set(i, values[i]);
        }
        assert_eq!(b.build().unwrap(), vec![10, 20, 30]);
    }
}

#[test]
fn overwrite_keeps_only_second_value() {
    assert_eq!(point_builder().set(0, 3).set(0, 5).set(1, 4).build().unwrap(), vec![5, 4]);
}

#[test]
fn incomplete_after_overwriting_one_field_twice() {
    let mut b = point_builder();
    b.set(1, 7).set(1, 9);
    assert!(!b.is_complete());
    let e = b.build().unwrap_err();
    assert_eq!(e.missing_field, "x");
}

#[test]
fn finalize_is_repeatable_and_does_not_consume() {
    let mut b = point_builder();
    b.set(0, 3);
    let e = b.build().unwrap_err();
    assert_eq!(e.missing_field, "y");
    b.set(1, 4);
    assert!(b.is_complete());
    assert_eq!(b.build().unwrap(), vec![3, 4]);
    assert_eq!(b.build().unwrap(), vec![3, 4]);
    b.set(1, 6);
    assert_eq!(b.build().unwrap(), vec![3, 6]);
}

#[test]
fn empty_record_builder_is_complete_at_once() {
    let g = builder::derive(&record("Unit", vec![])).unwrap();
    let b: BuilderState<i64> = BuilderState::from_default(&g.default_instance);
    assert!(b.is_complete());
    assert_eq!(b.build().unwrap(), Vec::<i64>::new());
}
