//! The sample-point lattice: counts and walking order.

use planet_generator::points::lattice_indices;

#[test]
fn lattice_walks_columns_outermost() {
    let out = lattice_indices(4, 3);
    assert_eq!(out.len(), 6);
    assert_eq!(out, vec![(1, 1), (1, 2), (2, 1), (2, 2), (3, 1), (3, 2)]);
}

#[test]
fn lattice_leaves_out_the_border_column_and_row() {
    let out = lattice_indices(3, 3);
    assert!(out.iter().all(|&(c, r)| c >= 1 && r >= 1 && c < 3 && r < 3));
    assert_eq!(out.len(), 4);
}

#[test]
fn degenerate_counts_give_an_empty_lattice() {
    assert!(lattice_indices(0, 5).is_empty());
    assert!(lattice_indices(5, 0).is_empty());
    assert!(lattice_indices(1, 5).is_empty());
    assert!(lattice_indices(5, 1).is_empty());
}

#[test]
fn lattice_count_matches_the_grid() {
    let out = lattice_indices(10, 7);
    assert_eq!(out.len(), 9 * 6);
    assert_eq!(out[0], (1, 1));
    assert_eq!(out[out.len() - 1], (9, 6));
}
