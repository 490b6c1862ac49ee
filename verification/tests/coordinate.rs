use linear_algebra::point3d::Coord3d;
use linear_algebra::scalar::Scalar;

#[test]
fn shift_zero_is_identity() {
    let p = Coord3d::new(1i32, 2, 3);
    assert_eq!(p.shift_x(0), p);
    assert_eq!(p.shift_y(0), p);
    assert_eq!(p.shift_z(0), p);
    assert_eq!(p.shift_all(0), p);
}

#[test]
fn shift_all_is_additive() {
    let p = Coord3d::new(10i32, -20, 30);
    assert_eq!(p.shift_all(7).shift_all(-3), p.shift_all(4));
    assert_eq!(p.shift_all(0).shift_all(5), p.shift_all(5));
}

#[test]
fn shift_moves_one_component() {
    let p = Coord3d::new(1i32, 2, 3);
    assert_eq!(p.shift_x(10), Coord3d::new(11, 2, 3));
    assert_eq!(p.shift_y(10), Coord3d::new(1, 12, 3));
    assert_eq!(p.shift_z(10), Coord3d::new(1, 2, 13));
    assert_eq!(p.shift_all(10), Coord3d::new(11, 12, 13));
}

#[test]
fn scale_multiplies_each_component() {
    let p = Coord3d::new(1i32, -2, 3);
    assert_eq!(p.scale(4), Coord3d::new(4, -8, 12));
    assert_eq!(p.scale(0), Coord3d::new(0, 0, 0));
}

#[test]
fn add_coord_sums_componentwise() {
    let p = Coord3d::new(1i32, 2, 3);
    let q = Coord3d::new(4i32, 5, 6);
    assert_eq!(p.add_coord(q), Coord3d::new(5, 7, 9));
}

#[test]
fn origin_inner_product_is_zero() {
    assert_eq!(Coord3d::<i32>::origin().inner_product(), 0);
    assert_eq!(Coord3d::<u32>::origin().inner_product(), 0);
}

#[test]
fn origin_is_all_zero() {
    assert_eq!(Coord3d::<i32>::origin(), Coord3d::new(0, 0, 0));
}

#[test]
fn inner_product_of_one_two_three() {
    let p = Coord3d::new(1i32, 2, 3);
    assert_eq!(p.inner_product(), 14);
}

#[test]
fn outter_product_rows_are_pairwise_products() {
    let p = Coord3d::new(1i32, 2, 3);
    let q = Coord3d::new(4i32, 5, 6);
    let m = p.outter_product(&q);
    assert_eq!(m[0], [4, 5, 6]);
    assert_eq!(m[1], [8, 10, 12]);
    assert_eq!(m[2], [12, 15, 18]);
}

#[test]
fn distance_squared_to_self_is_zero() {
    let p = Coord3d::new(7i32, -8, 9);
    assert_eq!(p.distance_squared(p), 0);
}

#[test]
fn distance_squared_is_symmetric() {
    let p = Coord3d::new(1i32, 2, 3);
    let q = Coord3d::new(4i32, 5, 6);
    assert_eq!(p.distance_squared(q), 27);
    assert_eq!(q.distance_squared(p), 27);
}

#[test]
fn unsigned_scalars_work_too() {
    let p = Coord3d::new(1u32, 2, 3);
    let q = Coord3d::new(4u32, 5, 6);
    assert_eq!(p.add_coord(q), Coord3d::new(5, 7, 9));
    assert_eq!(q.distance_squared(p), 27);
    assert_eq!(p.scale(3), Coord3d::new(3, 6, 9));
}

#[test]
fn scalar_operations_are_exact() {
    assert_eq!(5i32.add_val(-3), 2);
    assert_eq!(5i32.sub_val(8), -3);
    assert_eq!(5i32.mul_val(7), 35);
    assert_eq!(i32::zero(), 0);
    assert_eq!(u32::zero(), 0);
}
