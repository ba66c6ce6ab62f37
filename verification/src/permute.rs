//! The round schedules of both permutations, their row-by-row intermediate
//! values, and direct (out-of-circuit) evaluators.
//!
//! Poseidon runs `full_rounds/2` full rounds, then `partial_rounds` partial
//! rounds, then `full_rounds/2` full rounds; each round consumes three table
//! constants and contributes three trace rows (ARC, S-box, MDS) beyond the
//! initial row. Rescue-Prime runs `rounds` rounds of two symmetric halves
//! (forward S-box, MDS, inject three constants; inverse S-box, MDS, inject
//! three constants), contributing six rows per round.

use vstd::prelude::*;
use crate::field::{le_val, p_val, pow_p, Fe, fe_dup};
use crate::params::{PoseParamsV, PoseidonSpec, RescueParamsV, RescueSpec};
use crate::state::{
    arc_v, inv_sbox_v, mds_v, sbox_all_v, sbox_head_v, st_arc, st_dup,
    st_inv_sbox, st_mds, st_sbox_all, st_sbox_head, State, StateV, sv_wf,
};

verus! {

/// The round-constant triple consumed at injection point `k` of a flat table.
pub open spec fn rc_at(cs: Seq<nat>, k: nat) -> StateV {
    StateV { s0: cs[3 * k as int], s1: cs[3 * k as int + 1], s2: cs[3 * k as int + 2] }
}

/// Total Poseidon rounds.
pub open spec fn pose_total(pp: PoseParamsV) -> nat {
    pp.full_rounds + pp.partial_rounds
}

/// Whether Poseidon round `k` is a full round: the first and last
/// `full_rounds/2` rounds are, the `partial_rounds` in between are not.
pub open spec fn pose_full_at(pp: PoseParamsV, k: nat) -> bool {
    k < pp.full_rounds / 2 || pp.full_rounds / 2 + pp.partial_rounds <= k
}

/// One Poseidon round: ARC, then the full or partial S-box, then MDS.
pub open spec fn pose_round_v(pp: PoseParamsV, s: StateV, k: nat) -> StateV {
    let t = arc_v(s, rc_at(pp.cs, k));
    let u = if pose_full_at(pp, k) {
        sbox_all_v(t, pp.alpha)
    } else {
        sbox_head_v(t, pp.alpha)
    };
    mds_v(pp.m, u)
}

/// The Poseidon state after `k` rounds.
pub open spec fn pose_state_v(pp: PoseParamsV, init: StateV, k: nat) -> StateV
    decreases k,
{
    if k == 0 {
        init
    } else {
        pose_round_v(pp, pose_state_v(pp, init, (k - 1) as nat), (k - 1) as nat)
    }
}

/// The value carried by trace row `r` of the Poseidon circuit: row `3k` holds
/// the state entering round `k`, row `3k+1` the state after that round's ARC,
/// row `3k+2` the state after its S-box.
#[verifier::opaque]
pub open spec fn pose_row_v(pp: PoseParamsV, init: StateV, r: nat) -> StateV {
    let k = r / 3;
    let ph = r % 3;
    let s = pose_state_v(pp, init, k);
    if ph == 0 {
        s
    } else if ph == 1 {
        arc_v(s, rc_at(pp.cs, k))
    } else {
        if pose_full_at(pp, k) {
            sbox_all_v(arc_v(s, rc_at(pp.cs, k)), pp.alpha)
        } else {
            sbox_head_v(arc_v(s, rc_at(pp.cs, k)), pp.alpha)
        }
    }
}

/// One Rescue-Prime round: forward S-box, MDS, constants `2k`; inverse S-box,
/// MDS, constants `2k+1`.
pub open spec fn rescue_round_v(rp: RescueParamsV, s: StateV, k: nat) -> StateV {
    let h1 = arc_v(mds_v(rp.m, sbox_all_v(s, rp.alpha)), rc_at(rp.cs, 2 * k));
    arc_v(mds_v(rp.m, inv_sbox_v(h1, rp.e)), rc_at(rp.cs, 2 * k + 1))
}

/// The Rescue-Prime state after `k` rounds.
pub open spec fn rescue_state_v(rp: RescueParamsV, init: StateV, k: nat) -> StateV
    decreases k,
{
    if k == 0 {
        init
    } else {
        rescue_round_v(rp, rescue_state_v(rp, init, (k - 1) as nat), (k - 1) as nat)
    }
}

/// The value carried by trace row `r` of the Rescue-Prime circuit: row `6k`
/// holds the state entering round `k`, rows `6k+1 .. 6k+5` the five
/// intermediate states of that round.
#[verifier::opaque]
pub open spec fn rescue_row_v(rp: RescueParamsV, init: StateV, r: nat) -> StateV {
    let k = r / 6;
    let ph = r % 6;
    let s = rescue_state_v(rp, init, k);
    let a = sbox_all_v(s, rp.alpha);
    let b = mds_v(rp.m, a);
    let c = arc_v(b, rc_at(rp.cs, 2 * k));
    let d = inv_sbox_v(c, rp.e);
    let e = mds_v(rp.m, d);
    if ph == 0 {
        s
    } else if ph == 1 {
        a
    } else if ph == 2 {
        b
    } else if ph == 3 {
        c
    } else if ph == 4 {
        d
    } else {
        e
    }
}

/// The round-constant triple at injection point `k`, copied out of a table.
pub(crate) fn rc_triple(constants: &Vec<Fe>, k: usize) -> (r: State)
    requires
        3 * (k as nat) + 3 <= constants@.len(),
        forall|i: int| 0 <= i < constants@.len() ==> (#[trigger] constants@[i]).wf(),
    ensures
        r.wf(),
        r@ == rc_at(constants@.map_values(|f: Fe| f@), k as nat),
{
    let n: usize = constants.len();
    proof {
        assert(3 * (k as nat) + 3 <= n as nat);
    }
    let i0: usize = 3 * k;
    State {
        s0: fe_dup(&constants[i0]),
        s1: fe_dup(&constants[i0 + 1]),
        s2: fe_dup(&constants[i0 + 2]),
    }
}

/// The three trace rows contributed by Poseidon round `k` from state `s`:
/// after ARC, after the round's S-box, and after MDS (the next round's state).
pub(crate) fn pose_round_rows(ps: &PoseidonSpec, s: &State, k: usize) -> (r: (State, State, State))
    requires
        ps.wf(),
        s.wf(),
        (k as nat) < pose_total(ps@),
    ensures
        r.0.wf() && r.1.wf() && r.2.wf(),
        r.0@ == arc_v(s@, rc_at(ps@.cs, k as nat)),
        r.1@ == (if pose_full_at(ps@, k as nat) {
            sbox_all_v(r.0@, ps@.alpha)
        } else {
            sbox_head_v(r.0@, ps@.alpha)
        }),
        r.2@ == mds_v(ps@.m, r.1@),
        r.2@ == pose_round_v(ps@, s@, k as nat),
{
    proof {
        assert(3 * (k as nat) + 3 <= ps.constants@.len());
        assert(ps@.cs.len() == ps.constants@.len());
    }
    let rc = rc_triple(&ps.constants, k);
    let t = st_arc(s, &rc);
    let half: u16 = ps.full_rounds / 2;
    let full: bool = k < half as usize || k >= half as usize + ps.partial_rounds as usize;
    proof {
        assert(full == pose_full_at(ps@, k as nat));
    }
    let u = if full {
        st_sbox_all(&t, ps.alpha)
    } else {
        st_sbox_head(&t, ps.alpha)
    };
    let w = st_mds(&ps.mds, &u);
    (t, u, w)
}

/// Whether lane-wise `cur == nxt ^ alpha`: the forward reading of the inverse
/// S-box transition.
pub open spec fn inv_rel(cur: StateV, nxt: StateV, alpha: nat) -> bool {
    cur.s0 == pow_p(nxt.s0, alpha) && cur.s1 == pow_p(nxt.s1, alpha) && cur.s2 == pow_p(
        nxt.s2,
        alpha,
    )
}

/// The six trace rows contributed by Rescue-Prime round `k` from state `s`.
/// The fourth (inverse S-box) transition additionally satisfies the forward
/// power relation that its gate checks.
pub(crate) fn rescue_round_rows(rs: &RescueSpec, s: &State, k: usize) -> (r: (
    State,
    State,
    State,
    State,
    State,
    State,
))
    requires
        rs.wf(),
        s.wf(),
        (k as nat) < rs@.rounds,
    ensures
        r.0.wf() && r.1.wf() && r.2.wf() && r.3.wf() && r.4.wf() && r.5.wf(),
        r.0@ == sbox_all_v(s@, rs@.alpha),
        r.1@ == mds_v(rs@.m, r.0@),
        r.2@ == arc_v(r.1@, rc_at(rs@.cs, 2 * (k as nat))),
        r.3@ == inv_sbox_v(r.2@, rs@.e),
        inv_rel(r.2@, r.3@, rs@.alpha),
        r.4@ == mds_v(rs@.m, r.3@),
        r.5@ == arc_v(r.4@, rc_at(rs@.cs, 2 * (k as nat) + 1)),
        r.5@ == rescue_round_v(rs@, s@, k as nat),
{
    proof {
        assert(3 * (2 * (k as nat) + 1) + 3 <= rs.constants@.len());
        assert(rs@.cs.len() == rs.constants@.len());
    }
    let a = st_sbox_all(s, rs.alpha);
    let b = st_mds(&rs.mds, &a);
    let rc0 = rc_triple(&rs.constants, 2 * k);
    let c = st_arc(&b, &rc0);
    let d = st_inv_sbox(&c, &rs.alpha_inv);
    proof {
        assert(1 <= rs@.alpha && (rs@.alpha * le_val(rs.alpha_inv@)) % ((p_val() - 1) as nat)
            == 1);
        assert(pow_p(d@.s0, rs@.alpha) == c@.s0);
    }
    let e = st_mds(&rs.mds, &d);
    let rc1 = rc_triple(&rs.constants, 2 * k + 1);
    let f = st_arc(&e, &rc1);
    (a, b, c, d, e, f)
}

/// Evaluate the Poseidon permutation directly, outside any circuit.
pub fn poseidon_permute(ps: &PoseidonSpec, init: &State) -> (r: State)
    requires
        ps.wf(),
        init.wf(),
    ensures
        r.wf(),
        r@ == pose_state_v(ps@, init@, pose_total(ps@)),
{
    let total: usize = ps.full_rounds as usize + ps.partial_rounds as usize;
    let mut s = st_dup(init);
    let mut k: usize = 0;
    while k < total
        invariant
            ps.wf(),
            s.wf(),
            k <= total,
            total == pose_total(ps@),
            s@ == pose_state_v(ps@, init@, k as nat),
        decreases total - k,
    {
        let (_t, _u, w) = pose_round_rows(ps, &s, k);
        s = w;
        k = k + 1;
    }
    s
}

/// Evaluate the Rescue-Prime permutation directly, outside any circuit.
pub fn rescue_permute(rs: &RescueSpec, init: &State) -> (r: State)
    requires
        rs.wf(),
        init.wf(),
    ensures
        r.wf(),
        r@ == rescue_state_v(rs@, init@, rs@.rounds),
{
    let total: usize = rs.rounds as usize;
    let mut s = st_dup(init);
    let mut k: usize = 0;
    while k < total
        invariant
            rs.wf(),
            s.wf(),
            k <= total,
            total == rs@.rounds,
            s@ == rescue_state_v(rs@, init@, k as nat),
        decreases total - k,
    {
        let (_a, _b, _c, _d, _e, f) = rescue_round_rows(rs, &s, k);
        s = f;
        k = k + 1;
    }
    s
}

} // verus!
