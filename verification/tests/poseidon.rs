use gateway_client::field::FieldElement;
use gateway_client::poseidon::{permute, permute_comp, PoseidonState};

fn from_hex(hex: &str) -> FieldElement {
    let padded = format!("{:0>64}", hex);
    let high = u128::from_str_radix(&padded[..32], 16).unwrap();
    let low = u128::from_str_radix(&padded[32..], 16).unwrap();
    FieldElement::from_halves(high, low)
}

#[test]
fn test_poseidon() {
    // Test vector from https://github.com/starkware-industries/poseidon
    let hex = [
        "79E8D1E78258000A28FC9D49E233BC6852357968577B1E386550ED6A9086133",
        "3840D003D0F3F96DBB796FF6AA6A63BE5B5404B91CCAABCA256154CBB6FB984",
        "1EB39DA3F7D3B04142D0AC83D9DA00C9325A61FB2EF326E50B70EAA8A3C7CC7",
    ];

    let test_vector = hex.map(from_hex);

    let mut state: PoseidonState = [
        FieldElement::zero(),
        FieldElement::zero(),
        FieldElement::zero(),
    ];
    permute(&mut state);

    assert_eq!(state, test_vector);
}

#[test]
fn test_poseidon_comp() {
    // Test vector from https://github.com/starkware-industries/poseidon
    let hex = [
        "79E8D1E78258000A28FC9D49E233BC6852357968577B1E386550ED6A9086133",
        "3840D003D0F3F96DBB796FF6AA6A63BE5B5404B91CCAABCA256154CBB6FB984",
        "1EB39DA3F7D3B04142D0AC83D9DA00C9325A61FB2EF326E50B70EAA8A3C7CC7",
    ];

    let test_vector = hex.map(from_hex);

    let mut state: PoseidonState = [
        FieldElement::zero(),
        FieldElement::zero(),
        FieldElement::zero(),
    ];
    permute_comp(&mut state);

    assert_eq!(state, test_vector);
}

#[test]
fn both_forms_of_the_permutation_agree() {
    let mut state: PoseidonState = [
        from_hex("1"),
        from_hex("123456789ABCDEF0123456789ABCDEF0123456789ABCDEF"),
        from_hex("800000000000011000000000000000000000000000000000000000000000000"),
    ];
    let mut other = state;
    for _ in 0..3 {
        permute(&mut state);
        permute_comp(&mut other);
        assert_eq!(state, other);
    }
    assert_ne!(state[0], from_hex("1"));
}

const PRIME_HIGH: u128 = 0x0800_0000_0000_0011_0000_0000_0000_0000;

#[test]
fn elements_are_reduced_modulo_the_prime() {
    assert_eq!(FieldElement::from_halves(PRIME_HIGH, 1).halves(), (0, 0));
    assert_eq!(FieldElement::from_halves(PRIME_HIGH, 0).halves(), (PRIME_HIGH, 0));
    assert_eq!(FieldElement::from_halves(PRIME_HIGH, 8).halves(), (0, 7));
    // 2^256 - 1 = 31 * p + (2^256 - 1 - 31 * p)
    let p = (PRIME_HIGH, 1u128);
    let all = FieldElement::from_halves(u128::MAX, u128::MAX).halves();
    assert_eq!(all.0, u128::MAX - 31 * p.0);
    assert_eq!(all.1, u128::MAX - 31);
}

#[test]
fn sums_wrap_at_the_prime() {
    let one = FieldElement::from_halves(0, 1);
    let last = FieldElement::from_halves(PRIME_HIGH, 0);
    assert_eq!(last.plus(&one).halves(), (0, 0));
    assert_eq!(last.plus(&last).halves(), (PRIME_HIGH - 1, u128::MAX));
    let low = FieldElement::from_halves(0, u128::MAX);
    assert_eq!(low.plus(&one).halves(), (1, 0));
    assert_eq!(one.plus(&one).halves(), (0, 2));
}

#[test]
fn differences_wrap_at_zero() {
    let zero = FieldElement::zero();
    let one = FieldElement::from_halves(0, 1);
    assert_eq!(zero.minus(&one).halves(), (PRIME_HIGH, 0));
    assert_eq!(one.minus(&one).halves(), (0, 0));
    let high = FieldElement::from_halves(1, 0);
    assert_eq!(high.minus(&one).halves(), (0, u128::MAX));
    assert_eq!(one.minus(&high).halves(), (PRIME_HIGH - 1, 2));
}

#[test]
fn products_are_reduced() {
    let zero = FieldElement::zero();
    let one = FieldElement::from_halves(0, 1);
    let three = FieldElement::from_halves(0, 3);
    let seven = FieldElement::from_halves(0, 7);
    let last = FieldElement::from_halves(PRIME_HIGH, 0);
    assert_eq!(three.times(&seven).halves(), (0, 21));
    assert_eq!(seven.times(&zero).halves(), (0, 0));
    assert_eq!(seven.times(&one).halves(), (0, 7));
    // (-1) * (-1) = 1, and (-1) * 3 = -3
    assert_eq!(last.times(&last).halves(), (0, 1));
    assert_eq!(last.times(&three).halves(), (PRIME_HIGH - 1, u128::MAX - 1));
    // 2^128 * 2^128 = 2^256 = 32 * p - (17 * 2^197 + 32)
    let high = FieldElement::from_halves(1, 0);
    let expected = FieldElement::zero().minus(&FieldElement::from_halves(17 << 69, 32));
    assert_eq!(high.times(&high), expected);
}
