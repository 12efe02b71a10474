use fastgeometry::curve::endpoint;
use fastgeometry::scalar::Scalar;

fn scalar(value: f32) -> Scalar {
    Scalar::from_bits(value.to_bits())
}

fn bits(point: [f32; 2]) -> [u32; 2] {
    [point[0].to_bits(), point[1].to_bits()]
}

const FIRST: [f32; 2] = [0.1, -7.3];
const LAST: [f32; 2] = [1.0e-3, 2.5e7];

#[test]
fn segment_starts_at_its_first_point() {
    let p = endpoint(scalar(0.0), FIRST, LAST).expect("zero selects the first point");
    assert_eq!(bits(p), bits(FIRST));
}

#[test]
fn negative_zero_selects_the_first_point_too() {
    let p = endpoint(scalar(-0.0), FIRST, LAST).expect("zero selects the first point");
    assert_eq!(bits(p), bits(FIRST));
}

#[test]
fn segment_ends_at_its_last_point() {
    let p = endpoint(scalar(1.0), FIRST, LAST).expect("one selects the last point");
    assert_eq!(bits(p), bits(LAST));
}

#[test]
fn endpoints_come_back_bit_for_bit() {
    // Patterns that arithmetic would not preserve: a negative zero, a
    // subnormal, and a NaN with a payload.
    let first: [u32; 2] = [0x8000_0000, 0x0000_0001];
    let last: [u32; 2] = [0x7fc0_1234, 0xff80_0000];
    assert_eq!(endpoint(scalar(0.0), first, last), Some(first));
    assert_eq!(endpoint(scalar(1.0), first, last), Some(last));
}

#[test]
fn inside_the_interval_no_endpoint_is_selected() {
    for t in [0.5f32, 0.25, 0.75, f32::EPSILON, 1.0 - f32::EPSILON, f32::MIN_POSITIVE] {
        assert_eq!(endpoint(scalar(t), FIRST, LAST), None, "{t:e}");
    }
    assert_eq!(endpoint(Scalar::from_bits(1), FIRST, LAST), None);
    assert_eq!(endpoint(Scalar::from_bits(0x3f7f_ffff), FIRST, LAST), None);
}

#[test]
fn outside_the_interval_no_endpoint_is_selected() {
    for t in [-1.0f32, -0.5, 1.5, 2.0, -f32::MIN_POSITIVE, f32::MAX, f32::MIN] {
        assert_eq!(endpoint(scalar(t), FIRST, LAST), None, "{t:e}");
    }
    assert_eq!(endpoint(Scalar::from_bits(0x3f80_0001), FIRST, LAST), None);
    assert_eq!(endpoint(Scalar::from_bits(0x8000_0001), FIRST, LAST), None);
}

#[test]
fn parameters_that_are_no_numbers_select_no_endpoint() {
    for t in [f32::NAN, f32::INFINITY, f32::NEG_INFINITY] {
        assert_eq!(endpoint(scalar(t), FIRST, LAST), None);
    }
}

#[test]
fn endpoints_of_borrowed_points_are_the_points_themselves() {
    let first: Vec<f32> = vec![3.0, 4.0];
    let last: Vec<f32> = vec![-5.0, 6.0];
    let at_start = endpoint(scalar(0.0), &first, &last).expect("zero selects the first point");
    assert!(std::ptr::eq(at_start, &first));
    let at_end = endpoint(scalar(1.0), &first, &last).expect("one selects the last point");
    assert!(std::ptr::eq(at_end, &last));
    assert!(endpoint(scalar(0.5), &first, &last).is_none());
}

#[test]
fn a_segment_of_one_point_is_that_point_at_both_ends() {
    let p: [f32; 2] = [9.0, -9.0];
    assert_eq!(endpoint(scalar(0.0), p, p), Some(p));
    assert_eq!(endpoint(scalar(1.0), p, p), Some(p));
    assert_eq!(endpoint(scalar(0.5), p, p), None);
}

#[test]
fn quadratic_segment_has_exact_ends() {
    let start: [f32; 2] = [0.0, 0.0];
    let end: [f32; 2] = [2.0, 0.0];
    assert_eq!(endpoint(scalar(0.0), start, end), Some(start));
    assert_eq!(endpoint(scalar(1.0), start, end), Some(end));
    assert_eq!(endpoint(scalar(0.5), start, end), None);
}

#[test]
fn cubic_segment_has_exact_ends() {
    let start: [f32; 2] = [0.0, 0.0];
    let end: [f32; 2] = [1.0, 0.0];
    assert_eq!(endpoint(scalar(0.0), start, end), Some(start));
    assert_eq!(endpoint(scalar(1.0), start, end), Some(end));
    assert_eq!(endpoint(scalar(0.5), start, end), None);
}
