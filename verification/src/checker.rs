//! Verification of a filled trace against a layout: every active gate's
//! relation between adjacent rows, every equality (copy) constraint, and the
//! binding of the final-state cells to the public outputs.

use vstd::prelude::*;
use crate::field::{fe_eq, fe_pow_small, pow_p, Fe};
use crate::layout::{layout_wf, Cell, Layout};
use crate::permute::inv_rel;
use crate::state::{
    arc_v, lane, mds_v, sbox_all_v, st_arc, st_eq, st_mds, st_sbox_all, Mds, MdsV, State, StateV,
};

verus! {

/// The value sequence of a trace.
pub open spec fn trace_v(tr: Seq<State>) -> Seq<StateV> {
    tr.map_values(|s: State| s@)
}

/// The lane value held by a cell of the trace.
pub open spec fn cell_val(tr: Seq<StateV>, c: Cell) -> nat {
    lane(tr[c.row as int], c.lane as int)
}

/// Whether every gate active on row `r` holds between rows `r` and `r + 1`.
pub open spec fn row_ok(alpha: nat, m: MdsV, l: Layout, tr: Seq<StateV>, r: int) -> bool {
    let s = l.sels@[r];
    let cur = tr[r];
    let nxt = tr[r + 1];
    let fx = l.fixed@[r]@;
    &&& (s.arc ==> nxt == arc_v(cur, fx))
    &&& (s.mds ==> nxt == mds_v(m, cur))
    &&& (s.sbox_full ==> nxt == sbox_all_v(cur, alpha))
    &&& (s.sbox_partial ==> nxt.s0 == pow_p(cur.s0, alpha))
    &&& (s.sbox_inv ==> inv_rel(cur, nxt, alpha))
}

/// Full satisfaction of a layout by a trace and claimed public outputs: right
/// row count, every active gate's relation on every adjacent row pair, every
/// equality constraint, and the final-state cells equal to the public outputs.
pub open spec fn satisfied(alpha: nat, m: MdsV, l: Layout, tr: Seq<StateV>, pubs: StateV) -> bool {
    &&& tr.len() == l.sels@.len()
    &&& (forall|r: int| 0 <= r && r + 1 < tr.len() ==> #[trigger] row_ok(alpha, m, l, tr, r))
    &&& (forall|i: int|
        0 <= i < l.eq_pairs@.len() ==> cell_val(tr, (#[trigger] l.eq_pairs@[i]).a) == cell_val(
            tr,
            l.eq_pairs@[i].b,
        ))
    &&& pubs == tr[tr.len() - 1]
}

/// A verification fault, with where it was found.
#[derive(Clone, Copy, PartialEq, Eq, Structural, Debug)]
pub enum VerifyFault {
    /// The trace's row count does not match the layout's.
    RowCount,
    /// A gate active on this row does not hold against the next row.
    Gate { row: usize },
    /// This equality (copy) constraint binds two cells with different values.
    Equality { index: usize },
    /// The final-state cells differ from the claimed public outputs.
    PublicMismatch,
}

/// Tampering is caught: changing the value of one cell bound by an equality
/// constraint, while the cell it is paired with keeps its value, makes
/// verification fail whatever public outputs are claimed. In particular a
/// Poseidon partial-round pass-through cell (lane 1 or 2 of an S-box row's
/// successor) cannot be mutated alone without detection.
pub proof fn lemma_tampered_copy_rejected(
    alpha: nat,
    m: MdsV,
    l: Layout,
    tr: Seq<StateV>,
    tr2: Seq<StateV>,
    pubs: StateV,
    idx: int,
)
    requires
        satisfied(alpha, m, l, tr, pubs),
        0 <= idx < l.eq_pairs@.len(),
        tr2.len() == tr.len(),
        cell_val(tr2, l.eq_pairs@[idx].a) == cell_val(tr, l.eq_pairs@[idx].a),
        cell_val(tr2, l.eq_pairs@[idx].b) != cell_val(tr, l.eq_pairs@[idx].b),
    ensures
        forall|p2: StateV| !satisfied(alpha, m, l, tr2, p2),
{
    assert forall|p2: StateV| !satisfied(alpha, m, l, tr2, p2) by {
        if satisfied(alpha, m, l, tr2, p2) {
            assert(cell_val(tr2, l.eq_pairs@[idx].a) == cell_val(tr2, l.eq_pairs@[idx].b));
            assert(cell_val(tr, l.eq_pairs@[idx].a) == cell_val(tr, l.eq_pairs@[idx].b));
        }
    }
}

/// Lane `ln` of a state triple.
fn lane_of<'a>(s: &'a State, ln: usize) -> (r: &'a Fe)
    requires
        ln < 3,
        s.wf(),
    ensures
        r.wf(),
        r@ == lane(s@, ln as int),
{
    if ln == 0 {
        &s.s0
    } else if ln == 1 {
        &s.s1
    } else {
        &s.s2
    }
}

/// Check a filled trace against a layout and claimed public outputs. Succeeds
/// exactly when the trace satisfies every active gate relation, every equality
/// constraint, and the public output binding; on failure, names the first
/// fault found (rows first, then equality constraints, then the outputs).
pub fn verify_trace(alpha: u64, m: &Mds, l: &Layout, tr: &Vec<State>, pubs: &State) -> (r: Result<
    (),
    VerifyFault,
>)
    requires
        1 <= alpha,
        m.wf(),
        layout_wf(*l),
        forall|i: int| 0 <= i < tr@.len() ==> (#[trigger] tr@[i]).wf(),
        pubs.wf(),
    ensures
        r is Ok <==> satisfied(alpha as nat, m@, *l, trace_v(tr@), pubs@),
        match r {
            Ok(()) => true,
            Err(VerifyFault::RowCount) => tr@.len() != l.sels@.len(),
            Err(VerifyFault::Gate { row }) => row + 1 < tr@.len() && !row_ok(
                alpha as nat,
                m@,
                *l,
                trace_v(tr@),
                row as int,
            ),
            Err(VerifyFault::Equality { index }) => index < l.eq_pairs@.len() && cell_val(
                trace_v(tr@),
                l.eq_pairs@[index as int].a,
            ) != cell_val(trace_v(tr@), l.eq_pairs@[index as int].b),
            Err(VerifyFault::PublicMismatch) => pubs@ != trace_v(tr@)[trace_v(tr@).len() - 1],
        },
{
    let n = tr.len();
    if n != l.sels.len() {
        return Err(VerifyFault::RowCount);
    }
    let ghost trv = trace_v(tr@);
    proof {
        assert(trv.len() == tr@.len());
        assert(forall|i: int| 0 <= i < trv.len() ==> #[trigger] trv[i] == tr@[i]@);
    }
    let mut r: usize = 0;
    while r + 1 < n
        invariant
            1 <= alpha,
            m.wf(),
            layout_wf(*l),
            forall|i: int| 0 <= i < tr@.len() ==> (#[trigger] tr@[i]).wf(),
            n == tr@.len(),
            n == l.sels@.len(),
            r < n,
            trv == trace_v(tr@),
            trv.len() == n,
            forall|i: int| 0 <= i < trv.len() ==> #[trigger] trv[i] == tr@[i]@,
            forall|i: int| 0 <= i < r ==> #[trigger] row_ok(alpha as nat, m@, *l, trv, i),
        decreases n - r,
    {
        let s = l.sels[r];
        let mut ok = true;
        if s.arc {
            let exp = st_arc(&tr[r], &l.fixed[r]);
            if !st_eq(&tr[r + 1], &exp) {
                ok = false;
            }
        }
        if s.mds {
            let exp = st_mds(m, &tr[r]);
            if !st_eq(&tr[r + 1], &exp) {
                ok = false;
            }
        }
        if s.sbox_full {
            let exp = st_sbox_all(&tr[r], alpha);
            if !st_eq(&tr[r + 1], &exp) {
                ok = false;
            }
        }
        if s.sbox_partial {
            let exp = fe_pow_small(&tr[r].s0, alpha);
            if !fe_eq(&tr[r + 1].s0, &exp) {
                ok = false;
            }
        }
        if s.sbox_inv {
            let e0 = fe_pow_small(&tr[r + 1].s0, alpha);
            let e1 = fe_pow_small(&tr[r + 1].s1, alpha);
            let e2 = fe_pow_small(&tr[r + 1].s2, alpha);
            if !(fe_eq(&tr[r].s0, &e0) && fe_eq(&tr[r].s1, &e1) && fe_eq(&tr[r].s2, &e2)) {
                ok = false;
            }
        }
        if !ok {
            proof {
                assert(!row_ok(alpha as nat, m@, *l, trv, r as int));
            }
            return Err(VerifyFault::Gate { row: r });
        }
        proof {
            assert(row_ok(alpha as nat, m@, *l, trv, r as int));
        }
        r = r + 1;
    }
    let mut i: usize = 0;
    while i < l.eq_pairs.len()
        invariant
            layout_wf(*l),
            forall|j: int| 0 <= j < tr@.len() ==> (#[trigger] tr@[j]).wf(),
            n == tr@.len(),
            n == l.sels@.len(),
            trv == trace_v(tr@),
            trv.len() == n,
            forall|j: int| 0 <= j < trv.len() ==> #[trigger] trv[j] == tr@[j]@,
            i <= l.eq_pairs@.len(),
            forall|j: int|
                0 <= j < i ==> cell_val(trv, (#[trigger] l.eq_pairs@[j]).a) == cell_val(
                    trv,
                    l.eq_pairs@[j].b,
                ),
        decreases l.eq_pairs@.len() - i,
    {
        let q = l.eq_pairs[i];
        let va = lane_of(&tr[q.a.row], q.a.lane);
        let vb = lane_of(&tr[q.b.row], q.b.lane);
        if !fe_eq(va, vb) {
            return Err(VerifyFault::Equality { index: i });
        }
        i = i + 1;
    }
    if !st_eq(pubs, &tr[n - 1]) {
        return Err(VerifyFault::PublicMismatch);
    }
    Ok(())
}

} // verus!
