use sponge_circuits::field::{fe_from_decimal, fe_from_u64, u64_to_bytes32, Fe};
use sponge_circuits::params::{PoseidonSpec, RescueSpec, SpecError};
use sponge_circuits::tables::{parse_fe_table, standard_mds, standard_poseidon_spec, standard_rescue_spec};

// The documented inverse of 5 modulo the group order p - 1.
const ALPHA_INV_DEC: &str =
    "20974350070050476191779096203274386335076221000211055129041463479975432473805";

fn small_table(n: usize) -> Vec<Fe> {
    let mut v = Vec::new();
    let mut i: u64 = 1;
    while (i as usize) <= n {
        v.push(fe_from_u64(i));
        i += 1;
    }
    v
}

#[test]
fn standard_specifications_validate() {
    let ps = standard_poseidon_spec().unwrap();
    assert_eq!(ps.full_rounds, 8);
    assert_eq!(ps.partial_rounds, 57);
    assert_eq!(ps.alpha, 5);
    assert_eq!(ps.constants.len(), 195);
    let rs = standard_rescue_spec().unwrap();
    assert_eq!(rs.rounds, 4);
    assert_eq!(rs.alpha, 5);
    assert_eq!(rs.constants.len(), 24);
}

#[test]
fn poseidon_rejects_wrong_table_length() {
    let mds = standard_mds().unwrap();
    // 2 full + 1 partial rounds consume 9 constants; hand it 8.
    let r = PoseidonSpec::new(2, 1, 5, small_table(8), mds);
    assert_eq!(r.err().unwrap(), SpecError::TableLength);
}

#[test]
fn poseidon_rejects_unsupported_alpha() {
    let mds = standard_mds().unwrap();
    let r = PoseidonSpec::new(2, 1, 4, small_table(9), mds);
    assert_eq!(r.err().unwrap(), SpecError::AlphaUnsupported);
}

#[test]
fn poseidon_rejects_odd_full_rounds() {
    let mds = standard_mds().unwrap();
    let r = PoseidonSpec::new(3, 1, 5, small_table(12), mds);
    assert_eq!(r.err().unwrap(), SpecError::UnevenFullRounds);
}

#[test]
fn poseidon_accepts_consistent_parameters() {
    let mds = standard_mds().unwrap();
    let r = PoseidonSpec::new(2, 1, 5, small_table(9), mds);
    assert!(r.is_ok());
}

#[test]
fn rescue_rejects_wrong_table_length() {
    let mds = standard_mds().unwrap();
    // 2 rounds consume 12 constants; hand it 11.
    let r = RescueSpec::new(2, 5, fe_from_decimal(ALPHA_INV_DEC).unwrap().d, small_table(11), mds);
    assert_eq!(r.err().unwrap(), SpecError::TableLength);
}

#[test]
fn rescue_rejects_bad_alpha_pairing() {
    let mds = standard_mds().unwrap();
    // 3 is not the inverse of 5 modulo p - 1.
    let r = RescueSpec::new(2, 5, u64_to_bytes32(3), small_table(12), mds);
    assert_eq!(r.err().unwrap(), SpecError::AlphaPairing);
}

#[test]
fn rescue_accepts_documented_pairing() {
    let mds = standard_mds().unwrap();
    let r = RescueSpec::new(2, 5, fe_from_decimal(ALPHA_INV_DEC).unwrap().d, small_table(12), mds);
    assert!(r.is_ok());
}

#[test]
fn table_parsing_flags_malformed_literals() {
    let strs: Vec<&str> = vec!["12", "oops", "3"];
    assert_eq!(parse_fe_table(&strs).err().unwrap(), SpecError::MalformedLiteral);
    let good: Vec<&str> = vec!["12", "3"];
    assert_eq!(parse_fe_table(&good).unwrap().len(), 2);
}
