//! Permutation specifications: the static parameter sets of Poseidon and
//! Rescue-Prime, validated on construction.
//!
//! A specification is rejected outright when its round-constant table does not
//! hold exactly what the round schedule will consume, when its S-box exponent
//! cannot be expressed as a bounded-degree gate, or (Rescue-Prime) when the
//! claimed inverse exponent does not invert `alpha` modulo the group order.

use vstd::prelude::*;
use crate::field::{bytes_eq, le_val, lemma_le_val_inj, mul_mod_bytes, p_minus_1_bytes, p_val, u64_to_bytes32, Fe};
use crate::state::{Mds, MdsV};

verus! {

/// A configuration-time fault. Construction does not proceed past any of these.
#[derive(PartialEq, Eq, Structural, Clone, Copy, Debug)]
pub enum SpecError {
    /// The S-box exponent is not one this gate library can express.
    AlphaUnsupported,
    /// The full rounds cannot be split into two equal halves.
    UnevenFullRounds,
    /// The round-constant table length differs from what the schedule consumes.
    TableLength,
    /// `alpha * alpha_inv` is not 1 modulo the order of the multiplicative group.
    AlphaPairing,
    /// A constant literal is not a canonical decimal field element.
    MalformedLiteral,
}

/// Mathematical content of a Poseidon specification.
pub ghost struct PoseParamsV {
    pub full_rounds: nat,
    pub partial_rounds: nat,
    pub alpha: nat,
    pub cs: Seq<nat>,
    pub m: MdsV,
}

/// The Poseidon permutation parameters: round counts, S-box exponent, flat
/// round-constant table (three constants per round, consumed in order), and
/// the shared MDS matrix.
pub struct PoseidonSpec {
    pub full_rounds: u16,
    pub partial_rounds: u16,
    pub alpha: u64,
    pub constants: Vec<Fe>,
    pub mds: Mds,
}

impl View for PoseidonSpec {
    type V = PoseParamsV;

    open spec fn view(&self) -> PoseParamsV {
        PoseParamsV {
            full_rounds: self.full_rounds as nat,
            partial_rounds: self.partial_rounds as nat,
            alpha: self.alpha as nat,
            cs: self.constants@.map_values(|f: Fe| f@),
            m: self.mds@,
        }
    }
}

impl PoseidonSpec {
    /// A validated specification: expressible exponent, evenly split full
    /// rounds, a table of exactly three canonical constants per round, and a
    /// canonical matrix.
    pub open spec fn wf(&self) -> bool {
        &&& (self.alpha == 3 || self.alpha == 5)
        &&& self.full_rounds % 2 == 0
        &&& self.constants@.len() == 3 * (self.full_rounds + self.partial_rounds)
        &&& (forall|i: int| 0 <= i < self.constants@.len() ==> (#[trigger] self.constants@[i]).wf())
        &&& self.mds.wf()
    }

    /// Validate and construct. Returns the specification exactly when the
    /// exponent is supported, the full rounds split evenly, and the table
    /// length equals the schedule's consumption; otherwise the first fault in
    /// that order.
    pub fn new(full_rounds: u16, partial_rounds: u16, alpha: u64, constants: Vec<Fe>, mds: Mds)
        -> (r: Result<PoseidonSpec, SpecError>)
        requires
            forall|i: int| 0 <= i < constants@.len() ==> (#[trigger] constants@[i]).wf(),
            mds.wf(),
        ensures
            match r {
                Ok(s) => s.wf() && s.full_rounds == full_rounds && s.partial_rounds
                    == partial_rounds && s.alpha == alpha && s.constants@ == constants@ && s.mds@
                    == mds@,
                Err(SpecError::AlphaUnsupported) => !(alpha == 3 || alpha == 5),
                Err(SpecError::UnevenFullRounds) => (alpha == 3 || alpha == 5) && full_rounds % 2
                    != 0,
                Err(SpecError::TableLength) => (alpha == 3 || alpha == 5) && full_rounds % 2 == 0
                    && constants@.len() != 3 * (full_rounds + partial_rounds),
                Err(_) => false,
            },
    {
        if !(alpha == 3 || alpha == 5) {
            return Err(SpecError::AlphaUnsupported);
        }
        if full_rounds % 2 != 0 {
            return Err(SpecError::UnevenFullRounds);
        }
        let expected: usize = 3 * (full_rounds as usize + partial_rounds as usize);
        if constants.len() != expected {
            return Err(SpecError::TableLength);
        }
        Ok(PoseidonSpec { full_rounds, partial_rounds, alpha, constants, mds })
    }
}

/// Mathematical content of a Rescue-Prime specification.
pub ghost struct RescueParamsV {
    pub rounds: nat,
    pub alpha: nat,
    pub e: nat,
    pub cs: Seq<nat>,
    pub m: MdsV,
}

/// The Rescue-Prime permutation parameters: round count, forward S-box
/// exponent and its inverse exponent modulo the group order, flat
/// round-constant table (three constants per injection, two injections per
/// round, consumed in order), and the shared MDS matrix.
pub struct RescueSpec {
    pub rounds: u16,
    pub alpha: u64,
    pub alpha_inv: Vec<u8>,
    pub constants: Vec<Fe>,
    pub mds: Mds,
}

impl View for RescueSpec {
    type V = RescueParamsV;

    open spec fn view(&self) -> RescueParamsV {
        RescueParamsV {
            rounds: self.rounds as nat,
            alpha: self.alpha as nat,
            e: le_val(self.alpha_inv@),
            cs: self.constants@.map_values(|f: Fe| f@),
            m: self.mds@,
        }
    }
}

impl RescueSpec {
    /// A validated specification: expressible exponent, a table of exactly
    /// six canonical constants per round, a canonical matrix, and an inverse
    /// exponent that inverts `alpha` modulo the group order `p - 1`.
    pub open spec fn wf(&self) -> bool {
        &&& (self.alpha == 3 || self.alpha == 5)
        &&& self.constants@.len() == 6 * self.rounds
        &&& (forall|i: int| 0 <= i < self.constants@.len() ==> (#[trigger] self.constants@[i]).wf())
        &&& self.mds.wf()
        &&& ((self.alpha as nat) * le_val(self.alpha_inv@)) % ((p_val() - 1) as nat) == 1
    }

    /// Validate and construct. Returns the specification exactly when the
    /// exponent is supported, the table length equals the schedule's
    /// consumption, and `alpha * alpha_inv == 1 (mod p - 1)`; otherwise the
    /// first fault in that order.
    pub fn new(rounds: u16, alpha: u64, alpha_inv: Vec<u8>, constants: Vec<Fe>, mds: Mds) -> (r:
        Result<RescueSpec, SpecError>)
        requires
            forall|i: int| 0 <= i < constants@.len() ==> (#[trigger] constants@[i]).wf(),
            mds.wf(),
        ensures
            match r {
                Ok(s) => s.wf() && s.rounds == rounds && s.alpha == alpha && s.alpha_inv@
                    == alpha_inv@ && s.constants@ == constants@ && s.mds@ == mds@,
                Err(SpecError::AlphaUnsupported) => !(alpha == 3 || alpha == 5),
                Err(SpecError::TableLength) => (alpha == 3 || alpha == 5) && constants@.len() != 6
                    * rounds,
                Err(SpecError::AlphaPairing) => (alpha == 3 || alpha == 5) && constants@.len() == 6
                    * rounds && ((alpha as nat) * le_val(alpha_inv@)) % ((p_val() - 1) as nat)
                    != 1,
                Err(_) => false,
            },
    {
        if !(alpha == 3 || alpha == 5) {
            return Err(SpecError::AlphaUnsupported);
        }
        let expected: usize = 6 * (rounds as usize);
        if constants.len() != expected {
            return Err(SpecError::TableLength);
        }
        let pm1 = p_minus_1_bytes();
        let ab = u64_to_bytes32(alpha);
        let prod = mul_mod_bytes(&ab, &alpha_inv, &pm1);
        let one = u64_to_bytes32(1);
        let is_inverse = bytes_eq(&prod, &one);
        proof {
            if le_val(prod@) == le_val(one@) {
                lemma_le_val_inj(prod@, one@);
            }
        }
        if !is_inverse {
            return Err(SpecError::AlphaPairing);
        }
        Ok(RescueSpec { rounds, alpha, alpha_inv, constants, mds })
    }
}

} // verus!
