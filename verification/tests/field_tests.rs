//! The elevation raster: construction checks, border behaviour and
//! order-preserving sampling.

use planet_generator::field::{ElevationField, FieldError};

fn field_3x2() -> ElevationField {
    // row-major: (x, y) -> values[y * 3 + x]
    let values: Vec<u64> = vec![10, 11, 12, 20, 21, 22];
    ElevationField::new(3, 2, 99, values).unwrap()
}

#[test]
fn construction_checks_the_value_count() {
    assert_eq!(
        ElevationField::new(3, 2, 0, vec![1, 2, 3]).unwrap_err(),
        FieldError::WrongValueCount
    );
    assert!(ElevationField::new(3, 2, 0, vec![0; 6]).is_ok());
}

#[test]
fn construction_checks_the_extent() {
    assert_eq!(
        ElevationField::new(32767, 1, 0, vec![]).unwrap_err(),
        FieldError::SizeOutOfRange
    );
    assert_eq!(
        ElevationField::new(1, 40000, 0, vec![]).unwrap_err(),
        FieldError::SizeOutOfRange
    );
    assert!(ElevationField::new(0, 0, 0, vec![]).is_ok());
}

#[test]
fn lookup_is_row_major() {
    let f = field_3x2();
    assert_eq!(f.get_value(0, 0), 10);
    assert_eq!(f.get_value(2, 0), 12);
    assert_eq!(f.get_value(0, 1), 20);
    assert_eq!(f.get_value(2, 1), 22);
}

#[test]
fn out_of_bounds_lookup_returns_the_border() {
    let f = field_3x2();
    assert_eq!(f.get_value(3, 0), 99);
    assert_eq!(f.get_value(0, 2), 99);
    assert_eq!(f.get_value(1000, 1000), 99);
}

#[test]
fn sampling_preserves_order_and_length() {
    let f = field_3x2();
    let positions = vec![(2usize, 1usize), (0, 0), (5, 5), (1, 1)];
    let out = f.sample(&positions);
    assert_eq!(out, vec![22, 10, 99, 21]);
}
