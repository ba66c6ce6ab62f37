//! The witness generator: a strictly sequential state machine that fills the
//! trace row by row, each row computed from the one before it, consuming the
//! round-constant table in order. The trace's length and shape are functions
//! of the specification alone; only the cell values depend on the input.

use vstd::prelude::*;
use crate::layout::{pose_rows, rescue_rows};
use crate::params::{PoseidonSpec, RescueParamsV, RescueSpec};
use crate::params::PoseParamsV;
use crate::permute::{
    inv_rel, pose_full_at, pose_round_v, pose_row_v, pose_state_v, pose_total, rc_at,
    rescue_round_v, rescue_row_v, rescue_round_rows, rescue_state_v, pose_round_rows,
};
use crate::state::{arc_v, inv_sbox_v, mds_v, sbox_all_v, sbox_head_v, st_dup, State, StateV};

verus! {

use vstd::arithmetic::div_mod::lemma_fundamental_div_mod_converse;

/// How the three rows of Poseidon round `k` unfold from the round's entering
/// state.
pub proof fn lemma_pose_round_rows_v(pp: PoseParamsV, init: StateV, k: nat)
    ensures
        pose_row_v(pp, init, 3 * k) == pose_state_v(pp, init, k),
        pose_row_v(pp, init, 3 * k + 1) == arc_v(pose_state_v(pp, init, k), rc_at(pp.cs, k)),
        pose_row_v(pp, init, 3 * k + 2) == (if pose_full_at(pp, k) {
            sbox_all_v(pose_row_v(pp, init, 3 * k + 1), pp.alpha)
        } else {
            sbox_head_v(pose_row_v(pp, init, 3 * k + 1), pp.alpha)
        }),
        pose_row_v(pp, init, 3 * k + 3) == pose_state_v(pp, init, k + 1),
{
    reveal(crate::permute::pose_row_v);
    lemma_fundamental_div_mod_converse((3 * k) as int, 3, k as int, 0);
    lemma_fundamental_div_mod_converse((3 * k + 1) as int, 3, k as int, 1);
    lemma_fundamental_div_mod_converse((3 * k + 2) as int, 3, k as int, 2);
    lemma_fundamental_div_mod_converse((3 * k + 3) as int, 3, (k + 1) as int, 0);
    assert(pose_state_v(pp, init, k + 1) == pose_round_v(pp, pose_state_v(pp, init, k), k));
}

/// For every initial state, the in-circuit trace's final row carries exactly
/// the result of evaluating the Poseidon permutation directly, outside any
/// circuit.
pub proof fn lemma_pose_final_row_is_permutation(pp: PoseParamsV, init: StateV)
    ensures
        pose_row_v(pp, init, (pose_rows(pp) - 1) as nat) == pose_state_v(
            pp,
            init,
            pose_total(pp),
        ),
{
    lemma_pose_round_rows_v(pp, init, pose_total(pp));
}

/// For every initial state, the in-circuit trace's final row carries exactly
/// the result of evaluating the Rescue-Prime permutation directly, outside any
/// circuit.
pub proof fn lemma_rescue_final_row_is_permutation(rp: RescueParamsV, init: StateV)
    ensures
        rescue_row_v(rp, init, (rescue_rows(rp) - 1) as nat) == rescue_state_v(
            rp,
            init,
            rp.rounds,
        ),
{
    lemma_rescue_round_rows_v(rp, init, rp.rounds);
}

/// Generate the Poseidon witness trace for one initial state: the initial row,
/// then per round the rows after ARC, after the S-box, and after MDS. Row `r`
/// carries exactly the schedule's value for row `r`, so the trace's final row
/// is the directly evaluated permutation of the initial state, and the row
/// count is a function of the specification alone.
pub fn poseidon_witness(ps: &PoseidonSpec, init: &State) -> (tr: Vec<State>)
    requires
        ps.wf(),
        init.wf(),
    ensures
        tr@.len() == pose_rows(ps@),
        forall|r: int|
            0 <= r < tr@.len() ==> (#[trigger] tr@[r])@ == pose_row_v(ps@, init@, r as nat)
                && tr@[r].wf(),
{
    let total: usize = ps.full_rounds as usize + ps.partial_rounds as usize;
    let mut tr: Vec<State> = Vec::new();
    tr.push(st_dup(init));
    proof {
        lemma_pose_round_rows_v(ps@, init@, 0);
    }
    let mut k: usize = 0;
    while k < total
        invariant
            ps.wf(),
            init.wf(),
            k <= total,
            total == pose_total(ps@),
            tr@.len() == 3 * k + 1,
            forall|r: int|
                0 <= r < tr@.len() ==> (#[trigger] tr@[r])@ == pose_row_v(ps@, init@, r as nat)
                    && tr@[r].wf(),
        decreases total - k,
    {
        let last: usize = tr.len() - 1;
        proof {
            lemma_pose_round_rows_v(ps@, init@, k as nat);
            assert(tr@[last as int]@ == pose_row_v(ps@, init@, (3 * k) as nat));
            assert(tr@[last as int]@ == pose_state_v(ps@, init@, k as nat));
        }
        let (a, b, c) = pose_round_rows(ps, &tr[last], k);
        proof {
            assert(a@ == pose_row_v(ps@, init@, (3 * k + 1) as nat));
            assert(b@ == pose_row_v(ps@, init@, (3 * k + 2) as nat));
            assert(c@ == pose_row_v(ps@, init@, (3 * k + 3) as nat));
        }
        tr.push(a);
        tr.push(b);
        tr.push(c);
        k = k + 1;
    }
    tr
}

/// Whether the trace satisfies the forward power relation on every inverse
/// S-box transition (rows `6k+3` to `6k+4`): the relation the inverse S-box
/// gate checks, carried out of the generator because it holds of the computed
/// root rather than by algebra alone.
#[verifier::opaque]
pub open spec fn rescue_inv_ok(rp: RescueParamsV, tr: Seq<State>) -> bool {
    forall|r: int|
        0 <= r && r % 6 == 3 && r + 1 < tr.len() ==> inv_rel(
            (#[trigger] tr[r])@,
            tr[r + 1]@,
            rp.alpha,
        )
}

/// Whether the trace's rows carry exactly the schedule's values (and stay
/// canonical) up to its length.
#[verifier::opaque]
pub open spec fn rescue_rows_match(rp: RescueParamsV, init: StateV, tr: Seq<State>) -> bool {
    forall|r: int|
        0 <= r < tr.len() ==> (#[trigger] tr[r])@ == rescue_row_v(rp, init, r as nat)
            && tr[r].wf()
}

/// How the six rows of Rescue-Prime round `k` unfold from the round's entering
/// state.
pub proof fn lemma_rescue_round_rows_v(rp: RescueParamsV, init: StateV, k: nat)
    ensures
        rescue_row_v(rp, init, 6 * k) == rescue_state_v(rp, init, k),
        rescue_row_v(rp, init, 6 * k + 1) == sbox_all_v(rescue_state_v(rp, init, k), rp.alpha),
        rescue_row_v(rp, init, 6 * k + 2) == mds_v(
            rp.m,
            rescue_row_v(rp, init, 6 * k + 1),
        ),
        rescue_row_v(rp, init, 6 * k + 3) == arc_v(
            rescue_row_v(rp, init, 6 * k + 2),
            rc_at(rp.cs, 2 * k),
        ),
        rescue_row_v(rp, init, 6 * k + 4) == inv_sbox_v(rescue_row_v(rp, init, 6 * k + 3), rp.e),
        rescue_row_v(rp, init, 6 * k + 5) == mds_v(rp.m, rescue_row_v(rp, init, 6 * k + 4)),
        rescue_row_v(rp, init, 6 * k + 6) == rescue_state_v(rp, init, k + 1),
{
    reveal(crate::permute::rescue_row_v);
    lemma_fundamental_div_mod_converse((6 * k) as int, 6, k as int, 0);
    lemma_fundamental_div_mod_converse((6 * k + 1) as int, 6, k as int, 1);
    lemma_fundamental_div_mod_converse((6 * k + 2) as int, 6, k as int, 2);
    lemma_fundamental_div_mod_converse((6 * k + 3) as int, 6, k as int, 3);
    lemma_fundamental_div_mod_converse((6 * k + 4) as int, 6, k as int, 4);
    lemma_fundamental_div_mod_converse((6 * k + 5) as int, 6, k as int, 5);
    lemma_fundamental_div_mod_converse((6 * k + 6) as int, 6, (k + 1) as int, 0);
    assert(rescue_state_v(rp, init, k + 1) == rescue_round_v(rp, rescue_state_v(rp, init, k), k));
}

/// Extending an honest prefix by one round's six honest rows keeps the trace
/// honest, and keeps every inverse S-box transition's forward power relation
/// (the new one being the third-to-fourth new row).
proof fn lemma_rescue_extend(
    rp: RescueParamsV,
    init: StateV,
    k: nat,
    before: Seq<State>,
    rows: Seq<State>,
    full: Seq<State>,
)
    requires
        before.len() == 6 * k + 1,
        rescue_rows_match(rp, init, before),
        rescue_inv_ok(rp, before),
        rows.len() == 6,
        full == before + rows,
        forall|j: int|
            0 <= j < 6 ==> ((#[trigger] rows[j])@ == rescue_row_v(rp, init, (6 * k + 1 + j) as nat)
                && rows[j].wf()),
        inv_rel(rows[2]@, rows[3]@, rp.alpha),
    ensures
        rescue_rows_match(rp, init, full),
        rescue_inv_ok(rp, full),
{
    assert(full.len() == before.len() + 6);
    assert(forall|j: int| 0 <= j < before.len() ==> #[trigger] full[j] == before[j]);
    assert(forall|j: int| 0 <= j < 6 ==> #[trigger] full[before.len() + j] == rows[j]);
    assert(rescue_rows_match(rp, init, full)) by {
        reveal(rescue_rows_match);
        assert forall|r: int|
            0 <= r < full.len() implies ((#[trigger] full[r])@ == rescue_row_v(rp, init, r as nat)
            && full[r].wf()) by {
            if r >= before.len() {
                assert(full[r] == rows[r - before.len()]);
            }
        }
    }
    assert(rescue_inv_ok(rp, full)) by {
        reveal(rescue_inv_ok);
        assert(full[6 * k as int + 3] == rows[2] && full[6 * k as int + 4] == rows[3]);
        assert forall|r: int| 0 <= r && r % 6 == 3 && r + 1 < full.len() implies inv_rel(
            (#[trigger] full[r])@,
            full[r + 1]@,
            rp.alpha,
        ) by {
            if r + 1 < before.len() {
                assert(before[r] == full[r] && before[r + 1] == full[r + 1]);
            } else if r != 6 * k + 3 {
                assert(r >= before.len() - 1);
                assert(r % 6 == 3 && 6 * k <= r <= 6 * k + 6);
                lemma_fundamental_div_mod_converse((6 * k + 3) as int, 6, k as int, 3);
                assert(false);
            }
        }
    }
}

/// Extend the trace of the honest rows so far by the six rows of Rescue-Prime
/// round `k`.
#[verifier::rlimit(100)]
fn rescue_round_append(rs: &RescueSpec, init: &State, tr: Vec<State>, k: usize) -> (out: Vec<
    State,
>)
    requires
        rs.wf(),
        init.wf(),
        (k as nat) < rs@.rounds,
        tr@.len() == 6 * (k as nat) + 1,
        rescue_rows_match(rs@, init@, tr@),
        rescue_inv_ok(rs@, tr@),
    ensures
        out@.len() == 6 * (k as nat) + 7,
        rescue_rows_match(rs@, init@, out@),
        rescue_inv_ok(rs@, out@),
{
    let mut tr = tr;
    let last: usize = tr.len() - 1;
    proof {
        lemma_rescue_round_rows_v(rs@, init@, k as nat);
        assert(tr@[last as int]@ == rescue_row_v(rs@, init@, (6 * k) as nat)) by {
            reveal(rescue_rows_match);
        }
        assert(tr@[last as int]@ == rescue_state_v(rs@, init@, k as nat));
        assert(tr@[last as int].wf()) by {
            reveal(rescue_rows_match);
        }
    }
    let (a, b, c, d, e, f) = rescue_round_rows(rs, &tr[last], k);
    proof {
        assert(a@ == rescue_row_v(rs@, init@, (6 * k + 1) as nat));
        assert(b@ == rescue_row_v(rs@, init@, (6 * k + 2) as nat));
        assert(c@ == rescue_row_v(rs@, init@, (6 * k + 3) as nat));
        assert(d@ == rescue_row_v(rs@, init@, (6 * k + 4) as nat));
        assert(e@ == rescue_row_v(rs@, init@, (6 * k + 5) as nat));
        assert(f@ == rescue_row_v(rs@, init@, (6 * k + 6) as nat));
    }
    let ghost before = tr@;
    let ghost row_vals = seq![a@, b@, c@, d@, e@, f@];
    let mut chunk: Vec<State> = Vec::new();
    chunk.push(a);
    chunk.push(b);
    chunk.push(c);
    chunk.push(d);
    chunk.push(e);
    chunk.push(f);
    proof {
        assert(chunk@.len() == 6);
        assert(forall|j: int| 0 <= j < 6 ==> (#[trigger] chunk@[j])@ == row_vals[j]);
        assert(forall|j: int| 0 <= j < 6 ==> (#[trigger] chunk@[j]).wf());
    }
    let ghost chunk_snap = chunk@;
    tr.append(&mut chunk);
    proof {
        assert(forall|j: int|
            0 <= j < 6 ==> ((#[trigger] chunk_snap[j])@ == rescue_row_v(
                rs@,
                init@,
                (6 * (k as nat) + 1 + j) as nat,
            ) && chunk_snap[j].wf()));
        lemma_rescue_extend(rs@, init@, k as nat, before, chunk_snap, tr@);
    }
    tr
}

/// Generate the Rescue-Prime witness trace for one initial state: the initial
/// row, then per round the rows after the forward S-box, MDS, first constant
/// injection, inverse S-box, MDS, and second constant injection. Row `r`
/// carries exactly the schedule's value for row `r`, and every inverse S-box
/// transition satisfies the forward power relation its gate checks.
pub fn rescue_witness(rs: &RescueSpec, init: &State) -> (tr: Vec<State>)
    requires
        rs.wf(),
        init.wf(),
    ensures
        tr@.len() == rescue_rows(rs@),
        forall|r: int|
            0 <= r < tr@.len() ==> (#[trigger] tr@[r])@ == rescue_row_v(rs@, init@, r as nat)
                && tr@[r].wf(),
        rescue_inv_ok(rs@, tr@),
{
    let total: usize = rs.rounds as usize;
    let mut tr: Vec<State> = Vec::new();
    tr.push(st_dup(init));
    proof {
        lemma_rescue_round_rows_v(rs@, init@, 0);
        assert(rescue_rows_match(rs@, init@, tr@)) by {
            reveal(rescue_rows_match);
        }
        assert(rescue_inv_ok(rs@, tr@)) by {
            reveal(rescue_inv_ok);
        }
    }
    let mut k: usize = 0;
    while k < total
        invariant
            rs.wf(),
            init.wf(),
            k <= total,
            total == rs@.rounds,
            tr@.len() == 6 * k + 1,
            rescue_rows_match(rs@, init@, tr@),
            rescue_inv_ok(rs@, tr@),
        decreases total - k,
    {
        tr = rescue_round_append(rs, init, tr, k);
        k = k + 1;
    }
    proof {
        reveal(rescue_rows_match);
    }
    tr
}



} // verus!
