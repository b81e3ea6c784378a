//! The seed hash against independently computed values of the
//! positional-weighted transform.

use planet_generator::seed::seed_to_u64;

#[test]
fn empty_seed_hashes_to_zero() {
    assert_eq!(seed_to_u64(""), 0);
}

#[test]
fn single_byte_seed() {
    assert_eq!(seed_to_u64("a"), 11673290488332788550);
}

#[test]
fn numeric_seed_string() {
    assert_eq!(seed_to_u64("42"), 3149923992398469594);
}

#[test]
fn word_seed() {
    assert_eq!(seed_to_u64("planet"), 6090353353370226860);
}

#[test]
fn seed_with_spaces() {
    assert_eq!(seed_to_u64("The quick brown fox"), 2407782354160881560);
}

#[test]
fn seed_longer_than_the_weight_table_wraps() {
    let long: String = std::iter::repeat('x').take(300).collect();
    assert_eq!(seed_to_u64(&long), 16186848607409252616);
}

#[test]
fn seed_hash_is_order_sensitive() {
    assert_ne!(seed_to_u64("ab"), seed_to_u64("ba"));
}
