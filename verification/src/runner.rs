//! The permutation runner: build the circuit configuration once, generate the
//! witness for one initial state, check the filled trace against the layout,
//! and compare the bound public outputs with caller-supplied expected values.
//! Also collects the row count and active-gate count.
//!
//! The central theorems here show completeness — the honest trace satisfies
//! the layout exactly when the claimed outputs are the directly evaluated
//! permutation of the initial state — and, for Poseidon, soundness: a
//! satisfying trace over a given initial state can only be the honest one,
//! cell for cell. (The Rescue-Prime analogue would need the uniqueness of
//! `alpha`-th roots in the field, which is beyond what these contracts state
//! of the underlying exponentiation.)

use vstd::prelude::*;
use crate::checker::{cell_val, row_ok, satisfied, trace_v, verify_trace, VerifyFault};
use crate::layout::{
    build_poseidon, build_rescue, layout_wf, pose_eq_ok, pose_fixed_at, pose_gates_ok,
    pose_pair_ok, pose_rows, pose_sels_at, rescue_fixed_at, rescue_gates_ok, rescue_rows,
    rescue_sels_at, sels_none, BuildError, CircuitConfig, Layout, RowSels,
};
use crate::field::pow_p;
use crate::params::{PoseParamsV, PoseidonSpec, RescueParamsV, RescueSpec};
use crate::permute::{
    inv_rel, pose_full_at, pose_round_v, pose_row_v, pose_state_v, pose_total, rc_at,
    rescue_round_v, rescue_row_v, rescue_state_v,
};
use crate::state::{arc_v, lane, mds_v, sbox_all_v, sbox_head_v, State, StateV};
use crate::permute::{poseidon_permute, rescue_permute};
use crate::witness::{
    lemma_pose_final_row_is_permutation, lemma_pose_round_rows_v,
    lemma_rescue_final_row_is_permutation, lemma_rescue_round_rows_v, poseidon_witness,
    rescue_witness,
};

verus! {

use vstd::arithmetic::div_mod::lemma_fundamental_div_mod;

/// What one verification pass reports: whether the trace checked out against
/// the expected outputs, the fault found when it did not, the total row
/// count, and how many rows have an active gate.
pub struct RunReport {
    pub ok: bool,
    pub fault: Option<VerifyFault>,
    pub rows: usize,
    pub gates_enabled: usize,
}

/// The honest Poseidon trace satisfies its layout exactly when the claimed
/// public outputs are the directly evaluated permutation of the initial state.
pub proof fn lemma_pose_honest_satisfied(
    pp: PoseParamsV,
    l: Layout,
    init: StateV,
    tr: Seq<StateV>,
    pubs: StateV,
)
    requires
        pp.full_rounds % 2 == 0,
        l.sels@.len() == pose_rows(pp),
        l.fixed@.len() == pose_rows(pp),
        forall|i: int|
            0 <= i < pose_rows(pp) ==> #[trigger] l.sels@[i] == pose_sels_at(pp, i as nat),
        forall|i: int|
            0 <= i < pose_rows(pp) ==> (#[trigger] l.fixed@[i])@ == pose_fixed_at(pp, i as nat),
        pose_eq_ok(pp, l.eq_pairs@),
        tr.len() == pose_rows(pp),
        forall|r: int| 0 <= r < tr.len() ==> #[trigger] tr[r] == pose_row_v(pp, init, r as nat),
    ensures
        satisfied(pp.alpha, pp.m, l, tr, pubs) <==> pubs == pose_state_v(
            pp,
            init,
            pose_total(pp),
        ),
        forall|r: int| 0 <= r && r + 1 < tr.len() ==> #[trigger] row_ok(pp.alpha, pp.m, l, tr, r),
        forall|i: int|
            0 <= i < l.eq_pairs@.len() ==> cell_val(tr, (#[trigger] l.eq_pairs@[i]).a) == cell_val(
                tr,
                l.eq_pairs@[i].b,
            ),
        tr[tr.len() - 1] == pose_state_v(pp, init, pose_total(pp)),
{
    let total = pose_total(pp);
    lemma_pose_round_rows_v(pp, init, total);
    assert(tr[tr.len() - 1] == pose_state_v(pp, init, total));
    assert forall|r: int| 0 <= r && r + 1 < tr.len() implies #[trigger] row_ok(
        pp.alpha,
        pp.m,
        l,
        tr,
        r,
    ) by {
        lemma_fundamental_div_mod(r, 3);
        let k = (r / 3) as nat;
        let ph = r % 3;
        lemma_pose_round_rows_v(pp, init, k);
        assert(l.sels@[r] == pose_sels_at(pp, r as nat));
        assert((r as nat) / 3 == k && (r as nat) % 3 == ph);
        if ph == 0 {
            assert(tr[r] == pose_state_v(pp, init, k));
            assert(tr[r + 1] == pose_row_v(pp, init, 3 * k + 1));
            assert(l.fixed@[r]@ == rc_at(pp.cs, k));
        } else if ph == 1 {
            assert(tr[r] == pose_row_v(pp, init, 3 * k + 1));
            assert(tr[r + 1] == pose_row_v(pp, init, 3 * k + 2));
        } else {
            assert(tr[r] == pose_row_v(pp, init, 3 * k + 2));
            assert(tr[r + 1] == pose_row_v(pp, init, 3 * k + 3));
            assert(pose_state_v(pp, init, k + 1) == pose_round_v(
                pp,
                pose_state_v(pp, init, k),
                k,
            ));
        }
    }
    assert forall|i: int|
        0 <= i < l.eq_pairs@.len() implies cell_val(tr, (#[trigger] l.eq_pairs@[i]).a) == cell_val(
        tr,
        l.eq_pairs@[i].b,
    ) by {
        assert(pose_pair_ok(pp, i, l.eq_pairs@[i]));
        let k = pp.full_rounds / 2 + (i / 2) as nat;
        let ln = 1 + (i % 2);
        lemma_pose_round_rows_v(pp, init, k);
        assert(i / 2 < pp.partial_rounds);
        assert(!pose_full_at(pp, k));
        assert(3 * k + 2 < tr.len());
        assert(tr[3 * k as int + 1] == pose_row_v(pp, init, 3 * k + 1));
        assert(tr[3 * k as int + 2] == pose_row_v(pp, init, 3 * k + 2));
        assert(pose_row_v(pp, init, 3 * k + 2) == sbox_head_v(
            pose_row_v(pp, init, 3 * k + 1),
            pp.alpha,
        ));
        assert(lane(tr[3 * k as int + 2], ln as int) == lane(tr[3 * k as int + 1], ln as int));
    }
}

/// One forced step of the Poseidon soundness argument: if rows up to `r` are
/// forced and the constraints hold, row `r` is forced too. Each gate relation
/// pins the next row's constrained lanes; a partial round's pass-through lanes
/// are pinned by their equality constraints.
proof fn lemma_pose_forced_row(
    pp: PoseParamsV,
    l: Layout,
    init: StateV,
    tr: Seq<StateV>,
    pubs: StateV,
    r: int,
)
    requires
        pp.full_rounds % 2 == 0,
        l.sels@.len() == pose_rows(pp),
        l.fixed@.len() == pose_rows(pp),
        forall|i: int|
            0 <= i < pose_rows(pp) ==> #[trigger] l.sels@[i] == pose_sels_at(pp, i as nat),
        forall|i: int|
            0 <= i < pose_rows(pp) ==> (#[trigger] l.fixed@[i])@ == pose_fixed_at(pp, i as nat),
        pose_eq_ok(pp, l.eq_pairs@),
        satisfied(pp.alpha, pp.m, l, tr, pubs),
        tr[0] == init,
        0 <= r < tr.len(),
    ensures
        tr[r] == pose_row_v(pp, init, r as nat),
    decreases r,
{
    if r == 0 {
        lemma_pose_round_rows_v(pp, init, 0);
    } else {
        lemma_pose_forced_row(pp, l, init, tr, pubs, r - 1);
        let q = r - 1;
        lemma_fundamental_div_mod(q, 3);
        let k = (q / 3) as nat;
        let ph = q % 3;
        lemma_pose_round_rows_v(pp, init, k);
        assert(row_ok(pp.alpha, pp.m, l, tr, q));
        assert(l.sels@[q] == pose_sels_at(pp, q as nat));
        assert((q as nat) / 3 == k && (q as nat) % 3 == ph);
        if ph == 0 {
            assert(pose_sels_at(pp, q as nat).arc);
            assert(tr[r] == arc_v(tr[q], l.fixed@[q]@));
            assert(l.fixed@[q]@ == rc_at(pp.cs, k));
        } else if ph == 1 {
            if pose_full_at(pp, k) {
                assert(pose_sels_at(pp, q as nat).sbox_full);
                assert(tr[r] == sbox_all_v(tr[q], pp.alpha));
            } else {
                assert(pose_sels_at(pp, q as nat).sbox_partial);
                assert(tr[r].s0 == pow_p(tr[q].s0, pp.alpha));
                assert(pp.full_rounds / 2 <= k && k < pp.full_rounds / 2 + pp.partial_rounds);
                let idx0 = 2 * (k - pp.full_rounds / 2);
                assert(0 <= idx0 && idx0 + 1 < l.eq_pairs@.len());
                assert(pose_pair_ok(pp, idx0, l.eq_pairs@[idx0]));
                assert(pose_pair_ok(pp, idx0 + 1, l.eq_pairs@[idx0 + 1]));
                assert(idx0 / 2 == k - pp.full_rounds / 2 && (idx0 + 1) / 2 == k
                    - pp.full_rounds / 2);
                assert(cell_val(tr, l.eq_pairs@[idx0].a) == cell_val(tr, l.eq_pairs@[idx0].b));
                assert(cell_val(tr, l.eq_pairs@[idx0 + 1].a) == cell_val(
                    tr,
                    l.eq_pairs@[idx0 + 1].b,
                ));
                assert(tr[r].s1 == tr[q].s1);
                assert(tr[r].s2 == tr[q].s2);
                assert(tr[r] == sbox_head_v(tr[q], pp.alpha));
            }
        } else {
            assert(pose_sels_at(pp, q as nat).mds);
            assert(tr[r] == mds_v(pp.m, tr[q]));
            assert(pose_state_v(pp, init, k + 1) == pose_round_v(
                pp,
                pose_state_v(pp, init, k),
                k,
            ));
        }
    }
}

/// The Poseidon layout is sound as well as complete: any trace that starts
/// from `init` and satisfies every gate, equality constraint and the output
/// binding carries exactly the honest row values, cell by cell, and its bound
/// outputs are the directly evaluated permutation of `init`. No cell of a
/// satisfying trace can deviate from the honest execution.
pub proof fn lemma_pose_satisfied_trace_is_honest(
    pp: PoseParamsV,
    l: Layout,
    init: StateV,
    tr: Seq<StateV>,
    pubs: StateV,
)
    requires
        pp.full_rounds % 2 == 0,
        l.sels@.len() == pose_rows(pp),
        l.fixed@.len() == pose_rows(pp),
        forall|i: int|
            0 <= i < pose_rows(pp) ==> #[trigger] l.sels@[i] == pose_sels_at(pp, i as nat),
        forall|i: int|
            0 <= i < pose_rows(pp) ==> (#[trigger] l.fixed@[i])@ == pose_fixed_at(pp, i as nat),
        pose_eq_ok(pp, l.eq_pairs@),
        satisfied(pp.alpha, pp.m, l, tr, pubs),
        tr[0] == init,
    ensures
        forall|r: int| 0 <= r < tr.len() ==> #[trigger] tr[r] == pose_row_v(pp, init, r as nat),
        pubs == pose_state_v(pp, init, pose_total(pp)),
{
    assert forall|r: int| 0 <= r < tr.len() implies #[trigger] tr[r] == pose_row_v(
        pp,
        init,
        r as nat,
    ) by {
        lemma_pose_forced_row(pp, l, init, tr, pubs, r);
    }
    lemma_pose_round_rows_v(pp, init, pose_total(pp));
    assert(tr[tr.len() - 1] == pose_row_v(pp, init, (tr.len() - 1) as nat));
}

/// The honest Rescue-Prime trace satisfies its layout exactly when the claimed
/// public outputs are the directly evaluated permutation of the initial state.
/// The inverse S-box rows' forward power relation is a hypothesis: it holds of
/// the generated trace, whose roots were computed with the inverse exponent.
#[verifier::rlimit(60)]
pub proof fn lemma_rescue_honest_satisfied(
    rp: RescueParamsV,
    l: Layout,
    init: StateV,
    tr: Seq<StateV>,
    pubs: StateV,
)
    requires
        l.sels@.len() == rescue_rows(rp),
        l.fixed@.len() == rescue_rows(rp),
        forall|i: int|
            0 <= i < rescue_rows(rp) ==> #[trigger] l.sels@[i] == rescue_sels_at(rp, i as nat),
        forall|i: int|
            0 <= i < rescue_rows(rp) ==> (#[trigger] l.fixed@[i])@ == rescue_fixed_at(rp, i as nat),
        l.eq_pairs@.len() == 0,
        tr.len() == rescue_rows(rp),
        forall|r: int| 0 <= r < tr.len() ==> #[trigger] tr[r] == rescue_row_v(rp, init, r as nat),
        forall|r: int|
            0 <= r && r % 6 == 3 && r + 1 < tr.len() ==> inv_rel(#[trigger] tr[r], tr[r + 1], rp.alpha),
    ensures
        satisfied(rp.alpha, rp.m, l, tr, pubs) <==> pubs == rescue_state_v(rp, init, rp.rounds),
        forall|r: int| 0 <= r && r + 1 < tr.len() ==> #[trigger] row_ok(rp.alpha, rp.m, l, tr, r),
        tr[tr.len() - 1] == rescue_state_v(rp, init, rp.rounds),
{
    lemma_rescue_round_rows_v(rp, init, rp.rounds);
    assert(tr[tr.len() - 1] == rescue_state_v(rp, init, rp.rounds));
    assert forall|r: int| 0 <= r && r + 1 < tr.len() implies #[trigger] row_ok(
        rp.alpha,
        rp.m,
        l,
        tr,
        r,
    ) by {
        lemma_fundamental_div_mod(r, 6);
        let k = (r / 6) as nat;
        let ph = r % 6;
        lemma_rescue_round_rows_v(rp, init, k);
        assert(l.sels@[r] == rescue_sels_at(rp, r as nat));
        assert((r as nat) / 6 == k && (r as nat) % 6 == ph);
        if ph == 0 {
            assert(tr[r] == rescue_state_v(rp, init, k));
            assert(tr[r + 1] == rescue_row_v(rp, init, 6 * k + 1));
        } else if ph == 1 {
            assert(tr[r] == rescue_row_v(rp, init, 6 * k + 1));
            assert(tr[r + 1] == rescue_row_v(rp, init, 6 * k + 2));
        } else if ph == 2 {
            assert(tr[r] == rescue_row_v(rp, init, 6 * k + 2));
            assert(tr[r + 1] == rescue_row_v(rp, init, 6 * k + 3));
            assert(l.fixed@[r]@ == rc_at(rp.cs, 2 * k));
        } else if ph == 3 {
            assert(inv_rel(tr[r], tr[r + 1], rp.alpha));
        } else if ph == 4 {
            assert(tr[r] == rescue_row_v(rp, init, 6 * k + 4));
            assert(tr[r + 1] == rescue_row_v(rp, init, 6 * k + 5));
        } else {
            assert(tr[r] == rescue_row_v(rp, init, 6 * k + 5));
            assert(tr[r + 1] == rescue_row_v(rp, init, 6 * k + 6));
            assert(rescue_state_v(rp, init, k + 1) == rescue_round_v(
                rp,
                rescue_state_v(rp, init, k),
                k,
            ));
            assert(l.fixed@[r]@ == rc_at(rp.cs, 2 * k + 1));
        }
    }
}

/// Whether any gate is active on a row.
fn is_active(s: &RowSels) -> (r: bool)
    ensures
        r == !sels_none(*s),
{
    s.arc || s.mds || s.sbox_full || s.sbox_partial || s.sbox_inv
}

/// Count the rows with an active gate. In both layouts built here that is
/// every row but the last: exactly one gate family is active per row.
fn count_active(sels: &Vec<RowSels>) -> (cnt: usize)
    ensures
        (forall|i: int|
            0 <= i < sels@.len() - 1 ==> !sels_none(#[trigger] sels@[i])) && sels@.len() >= 1
            && sels_none(sels@[sels@.len() - 1]) ==> cnt == sels@.len() - 1,
{
    let n = sels.len();
    let mut cnt: usize = 0;
    let mut i: usize = 0;
    while i < n
        invariant
            n == sels@.len(),
            i <= n,
            cnt <= i,
            (forall|j: int|
                0 <= j < sels@.len() - 1 ==> !sels_none(#[trigger] sels@[j])) && sels@.len() >= 1
                && sels_none(sels@[sels@.len() - 1]) ==> cnt == (if i < n {
                i as int
            } else {
                i - 1
            }),
        decreases n - i,
    {
        if is_active(&sels[i]) {
            cnt = cnt + 1;
        }
        i = i + 1;
    }
    cnt
}

/// Build the Poseidon circuit once, witness it for `init`, check the trace,
/// and compare the bound outputs against `expected`. The report's `ok` holds
/// exactly when `expected` is the permutation of `init`; `rows` is a function
/// of the specification alone.
#[verifier::rlimit(60)]
pub fn run_poseidon(ps: &PoseidonSpec, init: &State, expected: &State, max_degree: u64) -> (r:
    Result<RunReport, BuildError>)
    requires
        ps.wf(),
        init.wf(),
        expected.wf(),
    ensures
        match r {
            Ok(rep) => {
                &&& (rep.ok <==> expected@ == pose_state_v(ps@, init@, pose_total(ps@)))
                &&& (rep.ok <==> rep.fault is None)
                &&& (!rep.ok ==> rep.fault == Some(VerifyFault::PublicMismatch))
                &&& rep.rows == pose_rows(ps@)
                &&& rep.gates_enabled == pose_rows(ps@) - 1
            },
            Err(BuildError::DegreeExceeded) => ps@.alpha + 1 > max_degree,
        },
{
    let cfg = match build_poseidon(ps, max_degree) {
        Ok(c) => c,
        Err(e) => {
            return Err(e);
        },
    };
    let tr = poseidon_witness(ps, init);
    proof {
        assert forall|i: int| 0 <= i < tr@.len() implies #[trigger] trace_v(tr@)[i] == tr@[i]@ by {
        }
        lemma_pose_honest_satisfied(ps@, cfg.layout, init@, trace_v(tr@), expected@);
    }
    let vr = verify_trace(ps.alpha, &ps.mds, &cfg.layout, &tr, expected);
    let (ok, fault) = match vr {
        Ok(()) => (true, None),
        Err(f) => (false, Some(f)),
    };
    let rows = tr.len();
    proof {
        assert forall|i: int|
            0 <= i < cfg.layout.sels@.len() - 1 implies !sels_none(
            #[trigger] cfg.layout.sels@[i],
        ) by {
            lemma_fundamental_div_mod(i, 3);
            assert(cfg.layout.sels@[i] == pose_sels_at(ps@, i as nat));
        }
    }
    let gates_enabled = count_active(&cfg.layout.sels);
    Ok(RunReport { ok, fault, rows, gates_enabled })
}

/// Build the Rescue-Prime circuit once, witness it for `init`, check the
/// trace, and compare the bound outputs against `expected`. The report's `ok`
/// holds exactly when `expected` is the permutation of `init`; `rows` is a
/// function of the specification alone.
#[verifier::rlimit(60)]
pub fn run_rescue(rs: &RescueSpec, init: &State, expected: &State, max_degree: u64) -> (r: Result<
    RunReport,
    BuildError,
>)
    requires
        rs.wf(),
        init.wf(),
        expected.wf(),
    ensures
        match r {
            Ok(rep) => {
                &&& (rep.ok <==> expected@ == rescue_state_v(rs@, init@, rs@.rounds))
                &&& (rep.ok <==> rep.fault is None)
                &&& (!rep.ok ==> rep.fault == Some(VerifyFault::PublicMismatch))
                &&& rep.rows == rescue_rows(rs@)
                &&& rep.gates_enabled == rescue_rows(rs@) - 1
            },
            Err(BuildError::DegreeExceeded) => rs@.alpha + 1 > max_degree,
        },
{
    let cfg = match build_rescue(rs, max_degree) {
        Ok(c) => c,
        Err(e) => {
            return Err(e);
        },
    };
    let tr = rescue_witness(rs, init);
    proof {
        assert forall|i: int| 0 <= i < tr@.len() implies #[trigger] trace_v(tr@)[i] == tr@[i]@ by {
        }
        reveal(crate::witness::rescue_inv_ok);
        lemma_rescue_honest_satisfied(rs@, cfg.layout, init@, trace_v(tr@), expected@);
    }
    let vr = verify_trace(rs.alpha, &rs.mds, &cfg.layout, &tr, expected);
    let (ok, fault) = match vr {
        Ok(()) => (true, None),
        Err(f) => (false, Some(f)),
    };
    let rows = tr.len();
    proof {
        assert forall|i: int|
            0 <= i < cfg.layout.sels@.len() - 1 implies !sels_none(
            #[trigger] cfg.layout.sels@[i],
        ) by {
            lemma_fundamental_div_mod(i, 6);
            assert(cfg.layout.sels@[i] == rescue_sels_at(rs@, i as nat));
        }
    }
    let gates_enabled = count_active(&cfg.layout.sels);
    Ok(RunReport { ok, fault, rows, gates_enabled })
}


/// The closed set of supported constructions, dispatched through one shared
/// interface: configure a circuit, evaluate the permutation directly,
/// synthesize a witness trace, and run a full build-witness-check pass whose
/// final cells are exposed as the public outputs.
pub enum Permutation {
    Poseidon(PoseidonSpec),
    RescuePrime(RescueSpec),
}

impl Permutation {
    /// A validated underlying specification.
    pub open spec fn wf(&self) -> bool {
        match self {
            Permutation::Poseidon(ps) => ps.wf(),
            Permutation::RescuePrime(rs) => rs.wf(),
        }
    }

    /// The construction's S-box exponent.
    pub open spec fn alpha_v(&self) -> nat {
        match self {
            Permutation::Poseidon(ps) => ps@.alpha,
            Permutation::RescuePrime(rs) => rs@.alpha,
        }
    }

    /// The permutation's value on an initial state.
    pub open spec fn out_v(&self, init: StateV) -> StateV {
        match self {
            Permutation::Poseidon(ps) => pose_state_v(ps@, init, pose_total(ps@)),
            Permutation::RescuePrime(rs) => rescue_state_v(rs@, init, rs@.rounds),
        }
    }

    /// The trace row count: a function of the specification alone, never of an
    /// input state.
    pub open spec fn rows_v(&self) -> nat {
        match self {
            Permutation::Poseidon(ps) => pose_rows(ps@),
            Permutation::RescuePrime(rs) => rescue_rows(rs@),
        }
    }

    /// Everything a built configuration is pinned to: the selector and
    /// fixed-column schedule of every row, the equality constraints, and the
    /// gate set, with every polynomial inside `max_degree`.
    pub open spec fn config_ok(&self, c: CircuitConfig, max_degree: nat) -> bool {
        match self {
            Permutation::Poseidon(ps) => {
                &&& c.layout.sels@.len() == pose_rows(ps@)
                &&& c.layout.fixed@.len() == pose_rows(ps@)
                &&& (forall|i: int|
                    0 <= i < pose_rows(ps@) ==> #[trigger] c.layout.sels@[i] == pose_sels_at(
                        ps@,
                        i as nat,
                    ))
                &&& (forall|i: int|
                    0 <= i < pose_rows(ps@) ==> (#[trigger] c.layout.fixed@[i])@ == pose_fixed_at(
                        ps@,
                        i as nat,
                    ))
                &&& pose_eq_ok(ps@, c.layout.eq_pairs@)
                &&& pose_gates_ok(c.gates@, ps@.alpha, ps@.m, max_degree)
            },
            Permutation::RescuePrime(rs) => {
                &&& c.layout.sels@.len() == rescue_rows(rs@)
                &&& c.layout.fixed@.len() == rescue_rows(rs@)
                &&& (forall|i: int|
                    0 <= i < rescue_rows(rs@) ==> #[trigger] c.layout.sels@[i] == rescue_sels_at(
                        rs@,
                        i as nat,
                    ))
                &&& (forall|i: int|
                    0 <= i < rescue_rows(rs@) ==> (#[trigger] c.layout.fixed@[i])@
                        == rescue_fixed_at(rs@, i as nat))
                &&& c.layout.eq_pairs@.len() == 0
                &&& rescue_gates_ok(c.gates@, rs@.alpha, rs@.m, max_degree)
            },
        }
    }

    /// Build the construction's circuit configuration. On success the whole
    /// structure is pinned: the layout is sound, every row's selectors and
    /// fixed constants follow the round schedule, the equality constraints
    /// are exactly the schedule's, and the gates carry their proven degrees.
    pub fn configure(&self, max_degree: u64) -> (r: Result<CircuitConfig, BuildError>)
        requires
            self.wf(),
        ensures
            match r {
                Ok(c) => layout_wf(c.layout) && c.layout.sels@.len() == self.rows_v()
                    && self.config_ok(c, max_degree as nat),
                Err(BuildError::DegreeExceeded) => self.alpha_v() + 1 > max_degree,
            },
    {
        match self {
            Permutation::Poseidon(ps) => build_poseidon(ps, max_degree),
            Permutation::RescuePrime(rs) => build_rescue(rs, max_degree),
        }
    }

    /// Evaluate the permutation directly, outside any circuit.
    pub fn permute(&self, init: &State) -> (r: State)
        requires
            self.wf(),
            init.wf(),
        ensures
            r.wf(),
            r@ == self.out_v(init@),
    {
        match self {
            Permutation::Poseidon(ps) => poseidon_permute(ps, init),
            Permutation::RescuePrime(rs) => rescue_permute(rs, init),
        }
    }

    /// The round schedule's value for row `r` of the witness trace on initial
    /// state `init`.
    pub open spec fn trace_row_v(&self, init: StateV, r: nat) -> StateV {
        match self {
            Permutation::Poseidon(ps) => pose_row_v(ps@, init, r),
            Permutation::RescuePrime(rs) => rescue_row_v(rs@, init, r),
        }
    }

    /// Synthesize the witness trace for one initial state. Its length is the
    /// construction's row count, every row carries exactly the round
    /// schedule's value for that row (so the first row is the initial state),
    /// and its final row is the directly evaluated permutation of the initial
    /// state.
    pub fn synthesize(&self, init: &State) -> (tr: Vec<State>)
        requires
            self.wf(),
            init.wf(),
        ensures
            tr@.len() == self.rows_v(),
            forall|i: int|
                0 <= i < tr@.len() ==> (#[trigger] tr@[i]).wf() && tr@[i]@ == self.trace_row_v(
                    init@,
                    i as nat,
                ),
            tr@.len() >= 1 && tr@[0]@ == init@ && tr@[tr@.len() - 1]@ == self.out_v(init@),
    {
        match self {
            Permutation::Poseidon(ps) => {
                let tr = poseidon_witness(ps, init);
                proof {
                    lemma_pose_round_rows_v(ps@, init@, 0);
                    lemma_pose_final_row_is_permutation(ps@, init@);
                }
                tr
            },
            Permutation::RescuePrime(rs) => {
                let tr = rescue_witness(rs, init);
                proof {
                    lemma_rescue_round_rows_v(rs@, init@, 0);
                    lemma_rescue_final_row_is_permutation(rs@, init@);
                }
                tr
            },
        }
    }

    /// One full pass: build, witness, check, and compare the bound outputs to
    /// the caller's expected values.
    pub fn run(&self, init: &State, expected: &State, max_degree: u64) -> (r: Result<
        RunReport,
        BuildError,
    >)
        requires
            self.wf(),
            init.wf(),
            expected.wf(),
        ensures
            match r {
                Ok(rep) => {
                    &&& (rep.ok <==> expected@ == self.out_v(init@))
                    &&& (rep.ok <==> rep.fault is None)
                    &&& rep.rows == self.rows_v()
                    &&& rep.gates_enabled == self.rows_v() - 1
                },
                Err(BuildError::DegreeExceeded) => self.alpha_v() + 1 > max_degree,
            },
    {
        match self {
            Permutation::Poseidon(ps) => run_poseidon(ps, init, expected, max_degree),
            Permutation::RescuePrime(rs) => run_rescue(rs, init, expected, max_degree),
        }
    }
}

} // verus!
