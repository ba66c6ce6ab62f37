use sponge_circuits::field::{
    fe_add, fe_eq, fe_from_decimal, fe_from_u64, fe_mul, fe_pow_inv, fe_pow_small, u64_to_bytes32,
};

// The modulus and the modulus less one, as decimal numerals.
const P_DEC: &str = "52435875175126190479447740508185965837690552500527637822603658699938581184513";
const P_MINUS_1_DEC: &str =
    "52435875175126190479447740508185965837690552500527637822603658699938581184512";

#[test]
fn decimal_parse_matches_machine_words() {
    let a = fe_from_decimal("123").unwrap();
    let b = fe_from_u64(123);
    assert!(fe_eq(&a, &b));
    let z = fe_from_decimal("0").unwrap();
    assert!(fe_eq(&z, &fe_from_u64(0)));
}

#[test]
fn decimal_parse_rejects_malformed() {
    assert!(fe_from_decimal("").is_none());
    assert!(fe_from_decimal("12a").is_none());
    assert!(fe_from_decimal("+5").is_none());
    assert!(fe_from_decimal(" 5").is_none());
    assert!(fe_from_decimal("5_0").is_none());
}

#[test]
fn decimal_parse_rejects_non_canonical() {
    // The modulus itself and anything above it are not canonical.
    assert!(fe_from_decimal(P_DEC).is_none());
    // One below the modulus is the largest canonical element.
    assert!(fe_from_decimal(P_MINUS_1_DEC).is_some());
}

#[test]
fn addition_is_modular() {
    let two = fe_from_u64(2);
    let three = fe_from_u64(3);
    assert!(fe_eq(&fe_add(&two, &three), &fe_from_u64(5)));
    // (p - 1) + 1 wraps to zero.
    let pm1 = fe_from_decimal(P_MINUS_1_DEC).unwrap();
    let one = fe_from_u64(1);
    assert!(fe_eq(&fe_add(&pm1, &one), &fe_from_u64(0)));
}

#[test]
fn multiplication_and_small_powers() {
    let six = fe_from_u64(6);
    let seven = fe_from_u64(7);
    assert!(fe_eq(&fe_mul(&six, &seven), &fe_from_u64(42)));
    let three = fe_from_u64(3);
    assert!(fe_eq(&fe_pow_small(&three, 5), &fe_from_u64(243)));
    assert!(fe_eq(&fe_pow_small(&three, 3), &fe_from_u64(27)));
}

#[test]
fn large_exponent_power() {
    // 2^10 = 1024 through the byte-exponent path.
    let two = fe_from_u64(2);
    let e = u64_to_bytes32(10);
    assert!(fe_eq(&fe_pow_inv(&two, &e), &fe_from_u64(1024)));
}
