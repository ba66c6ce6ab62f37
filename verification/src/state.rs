//! The permutation state (an ordered triple of field elements), the shared
//! 3x3 MDS mixing matrix, and the field-level steps both permutations are
//! built from: round-constant addition, S-boxes, and MDS multiplication.

use vstd::prelude::*;
use crate::field::{
    add_p, fe_add, fe_dup, fe_eq, fe_mul, fe_pow_inv, fe_pow_small, le_val, mul_p, p_val, pow_nat,
    pow_p, Fe,
};

verus! {

/// Mathematical value of a state: an ordered triple of canonical residues.
pub ghost struct StateV {
    pub s0: nat,
    pub s1: nat,
    pub s2: nat,
}

/// An ordered triple of field elements.
pub struct State {
    pub s0: Fe,
    pub s1: Fe,
    pub s2: Fe,
}

impl View for State {
    type V = StateV;

    open spec fn view(&self) -> StateV {
        StateV { s0: self.s0@, s1: self.s1@, s2: self.s2@ }
    }
}

impl State {
    pub open spec fn wf(&self) -> bool {
        self.s0.wf() && self.s1.wf() && self.s2.wf()
    }
}

/// All three lanes canonical.
pub open spec fn sv_wf(s: StateV) -> bool {
    s.s0 < p_val() && s.s1 < p_val() && s.s2 < p_val()
}

/// Lane `l` of a state value.
pub open spec fn lane(s: StateV, l: int) -> nat {
    if l == 0 {
        s.s0
    } else if l == 1 {
        s.s1
    } else {
        s.s2
    }
}

/// Mathematical value of the MDS matrix, row by row.
pub ghost struct MdsV {
    pub m00: nat,
    pub m01: nat,
    pub m02: nat,
    pub m10: nat,
    pub m11: nat,
    pub m12: nat,
    pub m20: nat,
    pub m21: nat,
    pub m22: nat,
}

/// The 3x3 MDS mixing matrix, shared by both permutations.
pub struct Mds {
    pub m00: Fe,
    pub m01: Fe,
    pub m02: Fe,
    pub m10: Fe,
    pub m11: Fe,
    pub m12: Fe,
    pub m20: Fe,
    pub m21: Fe,
    pub m22: Fe,
}

impl View for Mds {
    type V = MdsV;

    open spec fn view(&self) -> MdsV {
        MdsV {
            m00: self.m00@,
            m01: self.m01@,
            m02: self.m02@,
            m10: self.m10@,
            m11: self.m11@,
            m12: self.m12@,
            m20: self.m20@,
            m21: self.m21@,
            m22: self.m22@,
        }
    }
}

impl Mds {
    pub open spec fn wf(&self) -> bool {
        self.m00.wf() && self.m01.wf() && self.m02.wf() && self.m10.wf() && self.m11.wf()
            && self.m12.wf() && self.m20.wf() && self.m21.wf() && self.m22.wf()
    }
}

/// Add a round-constant triple to the state, lane by lane (the ARC step).
pub open spec fn arc_v(s: StateV, c: StateV) -> StateV {
    StateV { s0: add_p(s.s0, c.s0), s1: add_p(s.s1, c.s1), s2: add_p(s.s2, c.s2) }
}

/// Forward S-box on every lane: each lane raised to `alpha`.
pub open spec fn sbox_all_v(s: StateV, alpha: nat) -> StateV {
    StateV { s0: pow_p(s.s0, alpha), s1: pow_p(s.s1, alpha), s2: pow_p(s.s2, alpha) }
}

/// Partial S-box: lane 0 raised to `alpha`, lanes 1 and 2 carried unchanged.
pub open spec fn sbox_head_v(s: StateV, alpha: nat) -> StateV {
    StateV { s0: pow_p(s.s0, alpha), s1: s.s1, s2: s.s2 }
}

/// Inverse S-box on every lane: each lane raised to the inverse exponent `e`.
pub open spec fn inv_sbox_v(s: StateV, e: nat) -> StateV {
    StateV { s0: pow_p(s.s0, e), s1: pow_p(s.s1, e), s2: pow_p(s.s2, e) }
}

/// One row of the matrix product: `s0*a + s1*b + s2*c` in the field.
pub open spec fn mds_row_v(a: nat, b: nat, c: nat, s: StateV) -> nat {
    add_p(add_p(mul_p(s.s0, a), mul_p(s.s1, b)), mul_p(s.s2, c))
}

/// MDS multiplication: the matrix applied to the state as a column vector.
pub open spec fn mds_v(m: MdsV, s: StateV) -> StateV {
    StateV {
        s0: mds_row_v(m.m00, m.m01, m.m02, s),
        s1: mds_row_v(m.m10, m.m11, m.m12, s),
        s2: mds_row_v(m.m20, m.m21, m.m22, s),
    }
}

/// A fresh copy of a state.
pub fn st_dup(s: &State) -> (r: State)
    ensures
        r@ == s@,
        r.wf() <==> s.wf(),
{
    State { s0: fe_dup(&s.s0), s1: fe_dup(&s.s1), s2: fe_dup(&s.s2) }
}

/// State equality (of values).
pub fn st_eq(a: &State, b: &State) -> (r: bool)
    requires
        a.wf(),
        b.wf(),
    ensures
        r <==> a@ == b@,
{
    let r0 = fe_eq(&a.s0, &b.s0);
    let r1 = fe_eq(&a.s1, &b.s1);
    let r2 = fe_eq(&a.s2, &b.s2);
    r0 && r1 && r2
}

/// The ARC step.
pub fn st_arc(s: &State, c: &State) -> (r: State)
    requires
        s.wf(),
        c.wf(),
    ensures
        r.wf(),
        r@ == arc_v(s@, c@),
{
    State { s0: fe_add(&s.s0, &c.s0), s1: fe_add(&s.s1, &c.s1), s2: fe_add(&s.s2, &c.s2) }
}

/// The forward S-box on every lane.
pub fn st_sbox_all(s: &State, alpha: u64) -> (r: State)
    requires
        s.wf(),
        1 <= alpha,
    ensures
        r.wf(),
        r@ == sbox_all_v(s@, alpha as nat),
{
    State {
        s0: fe_pow_small(&s.s0, alpha),
        s1: fe_pow_small(&s.s1, alpha),
        s2: fe_pow_small(&s.s2, alpha),
    }
}

/// The partial S-box: lane 0 only, lanes 1 and 2 copied through.
pub fn st_sbox_head(s: &State, alpha: u64) -> (r: State)
    requires
        s.wf(),
        1 <= alpha,
    ensures
        r.wf(),
        r@ == sbox_head_v(s@, alpha as nat),
{
    State { s0: fe_pow_small(&s.s0, alpha), s1: fe_dup(&s.s1), s2: fe_dup(&s.s2) }
}

/// The inverse S-box on every lane, by the inverse exponent `e`.
///
/// Carries the root property of `fe_pow_inv`: any `a` that inverts `e` modulo
/// the group order recovers each input lane as the `a`-th power of the
/// corresponding output lane.
pub fn st_inv_sbox(s: &State, e: &Vec<u8>) -> (r: State)
    requires
        s.wf(),
    ensures
        r.wf(),
        r@ == inv_sbox_v(s@, le_val(e@)),
        forall|a: nat|
            1 <= a && (a * le_val(e@)) % ((p_val() - 1) as nat) == 1 ==> (#[trigger] pow_p(
                r@.s0,
                a,
            ) == s@.s0 && pow_p(r@.s1, a) == s@.s1 && pow_p(r@.s2, a) == s@.s2),
{
    State { s0: fe_pow_inv(&s.s0, e), s1: fe_pow_inv(&s.s1, e), s2: fe_pow_inv(&s.s2, e) }
}

/// One row of the MDS product.
fn st_mds_row(a: &Fe, b: &Fe, c: &Fe, s: &State) -> (r: Fe)
    requires
        a.wf(),
        b.wf(),
        c.wf(),
        s.wf(),
    ensures
        r.wf(),
        r@ == mds_row_v(a@, b@, c@, s@),
{
    let t0 = fe_mul(&s.s0, a);
    let t1 = fe_mul(&s.s1, b);
    let t2 = fe_mul(&s.s2, c);
    fe_add(&fe_add(&t0, &t1), &t2)
}

/// The MDS multiplication step.
pub fn st_mds(m: &Mds, s: &State) -> (r: State)
    requires
        m.wf(),
        s.wf(),
    ensures
        r.wf(),
        r@ == mds_v(m@, s@),
{
    State {
        s0: st_mds_row(&m.m00, &m.m01, &m.m02, s),
        s1: st_mds_row(&m.m10, &m.m11, &m.m12, s),
        s2: st_mds_row(&m.m20, &m.m21, &m.m22, s),
    }
}

} // verus!
