//! The circuit builder: from a validated specification alone it produces the
//! purely structural side of a circuit — the per-row selector flags, the fixed
//! (round-constant) column assignments, the equality (copy) constraints of
//! Poseidon's partial-round pass-through lanes, and each family's polynomials with
//! their degree check against the backend's maximum.
//!
//! Nothing here depends on an input state: one configuration is reused for
//! every witness run against the same specification.

use vstd::prelude::*;
use crate::field::fe_from_u64;
use crate::gates::{
    arc_gate, arc_polys_ok, mds_gate, mds_polys_ok, sbox_full_gate, sbox_full_polys_ok,
    sbox_inv_gate, sbox_inv_polys_ok, sbox_partial_gate, sbox_partial_polys_ok, Expr,
};
use crate::params::{PoseParamsV, PoseidonSpec, RescueParamsV, RescueSpec};
use crate::permute::{pose_full_at, pose_total, rc_at, rc_triple};
use crate::state::{MdsV, State, StateV};

verus! {

/// Which gate families are active on a row.
#[derive(Clone, Copy, PartialEq, Eq, Structural, Debug)]
pub struct RowSels {
    pub arc: bool,
    pub mds: bool,
    pub sbox_full: bool,
    pub sbox_partial: bool,
    pub sbox_inv: bool,
}

/// A trace cell: row index and state lane.
#[derive(Clone, Copy, PartialEq, Eq, Structural, Debug)]
pub struct Cell {
    pub row: usize,
    pub lane: usize,
}

/// An equality (copy) constraint between two cells.
#[derive(Clone, Copy, PartialEq, Eq, Structural, Debug)]
pub struct EqPair {
    pub a: Cell,
    pub b: Cell,
}

/// The structural circuit layout: one selector set and one fixed-column
/// triple per row, and the equality constraints.
pub struct Layout {
    pub sels: Vec<RowSels>,
    pub fixed: Vec<State>,
    pub eq_pairs: Vec<EqPair>,
}

/// No selector active.
pub open spec fn sels_none(s: RowSels) -> bool {
    !s.arc && !s.mds && !s.sbox_full && !s.sbox_partial && !s.sbox_inv
}

/// A sound layout: as many selector rows as fixed rows, at least one row,
/// canonical fixed values, no gate on the last row (a gate reads the next
/// row), and equality constraints within bounds.
pub open spec fn layout_wf(l: Layout) -> bool {
    &&& l.sels@.len() == l.fixed@.len()
    &&& l.sels@.len() >= 1
    &&& (forall|i: int| 0 <= i < l.fixed@.len() ==> (#[trigger] l.fixed@[i]).wf())
    &&& sels_none(l.sels@[l.sels@.len() - 1])
    &&& (forall|i: int|
        0 <= i < l.eq_pairs@.len() ==> {
            let q = #[trigger] l.eq_pairs@[i];
            q.a.row < l.sels@.len() && q.b.row < l.sels@.len() && q.a.lane < 3 && q.b.lane < 3
        })
}

/// Gate families of this library.
#[derive(Clone, Copy, PartialEq, Eq, Structural, Debug)]
pub enum GateFamily {
    Arc,
    MdsMul,
    SboxFull,
    SboxPartial,
    SboxInv,
}

/// A gate: its family and its selector-gated constraint polynomials.
pub struct Gate {
    pub family: GateFamily,
    pub polys: Vec<Expr>,
}

/// A full circuit configuration: all gates and the structural layout.
pub struct CircuitConfig {
    pub gates: Vec<Gate>,
    pub layout: Layout,
}

/// A structural fault found while building a configuration.
#[derive(Clone, Copy, PartialEq, Eq, Structural, Debug)]
pub enum BuildError {
    /// A gate polynomial would exceed the backend's maximum gate degree.
    DegreeExceeded,
}

/// Total rows of the Poseidon circuit: the initial row plus three rows (ARC,
/// S-box, MDS) per round. A function of the specification alone.
pub open spec fn pose_rows(pp: PoseParamsV) -> nat {
    3 * pose_total(pp) + 1
}

/// The selector flags of Poseidon row `r`.
pub open spec fn pose_sels_at(pp: PoseParamsV, r: nat) -> RowSels {
    RowSels {
        arc: r % 3 == 0 && r + 1 < pose_rows(pp),
        mds: r % 3 == 2,
        sbox_full: r % 3 == 1 && pose_full_at(pp, r / 3),
        sbox_partial: r % 3 == 1 && !pose_full_at(pp, r / 3),
        sbox_inv: false,
    }
}

/// The fixed-column triple of Poseidon row `r`: the round's three constants on
/// an ARC row, zero elsewhere.
pub open spec fn pose_fixed_at(pp: PoseParamsV, r: nat) -> StateV {
    if r % 3 == 0 && r + 1 < pose_rows(pp) {
        rc_at(pp.cs, r / 3)
    } else {
        StateV { s0: 0, s1: 0, s2: 0 }
    }
}

/// The shape of the `idx`-th Poseidon equality constraint: partial round
/// `full_rounds/2 + idx/2`, lane `1 + idx%2`, binding the S-box row's
/// pass-through cell to the cell above the MDS row.
pub open spec fn pose_pair_ok(pp: PoseParamsV, idx: int, q: EqPair) -> bool {
    let k = pp.full_rounds / 2 + (idx / 2) as nat;
    let ln = 1 + (idx % 2);
    q.a.row == 3 * k + 1 && q.a.lane == ln && q.b.row == 3 * k + 2 && q.b.lane == ln
}

/// All of Poseidon's equality constraints: two per partial round.
pub open spec fn pose_eq_ok(pp: PoseParamsV, qs: Seq<EqPair>) -> bool {
    qs.len() == 2 * pp.partial_rounds && (forall|idx: int|
        0 <= idx < qs.len() ==> pose_pair_ok(pp, idx, #[trigger] qs[idx]))
}

/// Gates of the Poseidon configuration: ARC, MDS, full S-box and
/// partial S-box, each with the proven polynomial degree, all within
/// `max_degree`.
pub open spec fn pose_gates_ok(gs: Seq<Gate>, alpha: nat, m: MdsV, max_degree: nat) -> bool {
    &&& gs.len() == 4
    &&& gs[0].family == GateFamily::Arc && arc_polys_ok(gs[0].polys@)
    &&& gs[1].family == GateFamily::MdsMul && mds_polys_ok(gs[1].polys@, m)
    &&& gs[2].family == GateFamily::SboxFull && sbox_full_polys_ok(gs[2].polys@, alpha)
    &&& gs[3].family == GateFamily::SboxPartial && sbox_partial_polys_ok(gs[3].polys@, alpha)
    &&& alpha + 1 <= max_degree
    &&& 2 <= max_degree
}

/// A zero state triple.
pub fn zero_state() -> (r: State)
    ensures
        r.wf(),
        r@ == (StateV { s0: 0, s1: 0, s2: 0 }),
{
    State { s0: fe_from_u64(0), s1: fe_from_u64(0), s2: fe_from_u64(0) }
}

/// Build the Poseidon circuit configuration: selectors and fixed constants by
/// the round schedule, equality constraints for the partial-round pass-through
/// lanes, and the four gates, rejected if a gate would exceed `max_degree`.
pub fn build_poseidon(ps: &PoseidonSpec, max_degree: u64) -> (r: Result<CircuitConfig, BuildError>)
    requires
        ps.wf(),
    ensures
        match r {
            Ok(c) => {
                &&& layout_wf(c.layout)
                &&& c.layout.sels@.len() == pose_rows(ps@)
                &&& c.layout.fixed@.len() == pose_rows(ps@)
                &&& (forall|i: int|
                    0 <= i < pose_rows(ps@) ==> #[trigger] c.layout.sels@[i] == pose_sels_at(
                        ps@,
                        i as nat,
                    ))
                &&& (forall|i: int|
                    0 <= i < pose_rows(ps@) ==> (#[trigger] c.layout.fixed@[i])@ == pose_fixed_at(
                        ps@,
                        i as nat,
                    ))
                &&& pose_eq_ok(ps@, c.layout.eq_pairs@)
                &&& pose_gates_ok(c.gates@, ps@.alpha, ps@.m, max_degree as nat)
            },
            Err(BuildError::DegreeExceeded) => ps@.alpha + 1 > max_degree,
        },
{
    if ps.alpha >= max_degree {
        return Err(BuildError::DegreeExceeded);
    }
    let total: usize = ps.full_rounds as usize + ps.partial_rounds as usize;
    let rows: usize = 3 * total + 1;
    let half: usize = (ps.full_rounds / 2) as usize;
    let mut sels: Vec<RowSels> = Vec::new();
    let mut fixed: Vec<State> = Vec::new();
    let mut r: usize = 0;
    while r < rows
        invariant
            ps.wf(),
            total == pose_total(ps@),
            rows == pose_rows(ps@),
            half == ps@.full_rounds / 2,
            r <= rows,
            sels@.len() == r,
            fixed@.len() == r,
            forall|i: int| 0 <= i < r ==> #[trigger] sels@[i] == pose_sels_at(ps@, i as nat),
            forall|i: int|
                0 <= i < r ==> (#[trigger] fixed@[i])@ == pose_fixed_at(ps@, i as nat)
                    && fixed@[i].wf(),
        decreases rows - r,
    {
        let k: usize = r / 3;
        let ph: usize = r % 3;
        let is_arc = ph == 0 && r + 1 < rows;
        let is_full = k < half || k >= half + ps.partial_rounds as usize;
        let s = RowSels {
            arc: is_arc,
            mds: ph == 2,
            sbox_full: ph == 1 && is_full,
            sbox_partial: ph == 1 && !is_full,
            sbox_inv: false,
        };
        proof {
            assert(k as nat == (r as nat) / 3 && ph as nat == (r as nat) % 3);
            assert(s == pose_sels_at(ps@, r as nat));
        }
        sels.push(s);
        let f = if is_arc {
            proof {
                assert(3 * (k as nat) + 3 <= ps.constants@.len());
            }
            rc_triple(&ps.constants, k)
        } else {
            zero_state()
        };
        fixed.push(f);
        r = r + 1;
    }
    let mut pairs: Vec<EqPair> = Vec::new();
    let mut k: usize = half;
    while k < half + ps.partial_rounds as usize
        invariant
            ps.wf(),
            half == ps@.full_rounds / 2,
            half <= k <= half + ps@.partial_rounds,
            pairs@.len() == 2 * (k - half),
            forall|idx: int|
                0 <= idx < pairs@.len() ==> pose_pair_ok(ps@, idx, #[trigger] pairs@[idx]),
        decreases half + ps.partial_rounds as usize - k,
    {
        let row_a: usize = 3 * k + 1;
        pairs.push(EqPair { a: Cell { row: row_a, lane: 1 }, b: Cell { row: row_a + 1, lane: 1 } });
        pairs.push(EqPair { a: Cell { row: row_a, lane: 2 }, b: Cell { row: row_a + 1, lane: 2 } });
        k = k + 1;
    }
    let layout = Layout { sels, fixed, eq_pairs: pairs };
    proof {
        assert(pose_sels_at(ps@, (pose_rows(ps@) - 1) as nat).arc == false);
        assert(sels_none(layout.sels@[layout.sels@.len() - 1]));
        assert forall|i: int| 0 <= i < layout.eq_pairs@.len() implies {
            let q = #[trigger] layout.eq_pairs@[i];
            q.a.row < layout.sels@.len() && q.b.row < layout.sels@.len() && q.a.lane < 3
                && q.b.lane < 3
        } by {
            assert(pose_pair_ok(ps@, i, layout.eq_pairs@[i]));
        }
    }
    let mut gates: Vec<Gate> = Vec::new();
    gates.push(Gate { family: GateFamily::Arc, polys: arc_gate() });
    gates.push(Gate { family: GateFamily::MdsMul, polys: mds_gate(&ps.mds) });
    gates.push(Gate { family: GateFamily::SboxFull, polys: sbox_full_gate(ps.alpha) });
    gates.push(Gate { family: GateFamily::SboxPartial, polys: sbox_partial_gate(ps.alpha) });
    Ok(CircuitConfig { gates, layout })
}

/// Total rows of the Rescue-Prime circuit: the initial row plus six rows per
/// round (S-box, MDS, ARC, inverse S-box, MDS, ARC). A function of the
/// specification alone.
pub open spec fn rescue_rows(rp: RescueParamsV) -> nat {
    6 * rp.rounds + 1
}

/// The selector flags of Rescue-Prime row `r`.
pub open spec fn rescue_sels_at(rp: RescueParamsV, r: nat) -> RowSels {
    RowSels {
        arc: r % 6 == 2 || r % 6 == 5,
        mds: r % 6 == 1 || r % 6 == 4,
        sbox_full: r % 6 == 0 && r + 1 < rescue_rows(rp),
        sbox_partial: false,
        sbox_inv: r % 6 == 3,
    }
}

/// The fixed-column triple of Rescue-Prime row `r`: the first injection's
/// constants on rows `6k+2`, the second injection's on rows `6k+5`, zero
/// elsewhere.
pub open spec fn rescue_fixed_at(rp: RescueParamsV, r: nat) -> StateV {
    if r % 6 == 2 {
        rc_at(rp.cs, 2 * (r / 6))
    } else if r % 6 == 5 {
        rc_at(rp.cs, 2 * (r / 6) + 1)
    } else {
        StateV { s0: 0, s1: 0, s2: 0 }
    }
}

/// Gates of the Rescue-Prime configuration: ARC, MDS, forward S-box
/// and inverse S-box, each with the proven polynomial degree, all within
/// `max_degree`.
pub open spec fn rescue_gates_ok(gs: Seq<Gate>, alpha: nat, m: MdsV, max_degree: nat) -> bool {
    &&& gs.len() == 4
    &&& gs[0].family == GateFamily::Arc && arc_polys_ok(gs[0].polys@)
    &&& gs[1].family == GateFamily::MdsMul && mds_polys_ok(gs[1].polys@, m)
    &&& gs[2].family == GateFamily::SboxFull && sbox_full_polys_ok(gs[2].polys@, alpha)
    &&& gs[3].family == GateFamily::SboxInv && sbox_inv_polys_ok(gs[3].polys@, alpha)
    &&& alpha + 1 <= max_degree
    &&& 2 <= max_degree
}

/// Build the Rescue-Prime circuit configuration: selectors and fixed constants
/// by the round schedule and the four gates, rejected if a gate would exceed
/// `max_degree`. Rescue-Prime has no pass-through lanes, so no equality
/// constraints beyond the public output binding.
pub fn build_rescue(rs: &RescueSpec, max_degree: u64) -> (r: Result<CircuitConfig, BuildError>)
    requires
        rs.wf(),
    ensures
        match r {
            Ok(c) => {
                &&& layout_wf(c.layout)
                &&& c.layout.sels@.len() == rescue_rows(rs@)
                &&& c.layout.fixed@.len() == rescue_rows(rs@)
                &&& (forall|i: int|
                    0 <= i < rescue_rows(rs@) ==> #[trigger] c.layout.sels@[i] == rescue_sels_at(
                        rs@,
                        i as nat,
                    ))
                &&& (forall|i: int|
                    0 <= i < rescue_rows(rs@) ==> (#[trigger] c.layout.fixed@[i])@
                        == rescue_fixed_at(rs@, i as nat))
                &&& c.layout.eq_pairs@.len() == 0
                &&& rescue_gates_ok(c.gates@, rs@.alpha, rs@.m, max_degree as nat)
            },
            Err(BuildError::DegreeExceeded) => rs@.alpha + 1 > max_degree,
        },
{
    if rs.alpha >= max_degree {
        return Err(BuildError::DegreeExceeded);
    }
    let total: usize = rs.rounds as usize;
    let rows: usize = 6 * total + 1;
    let mut sels: Vec<RowSels> = Vec::new();
    let mut fixed: Vec<State> = Vec::new();
    let mut r: usize = 0;
    while r < rows
        invariant
            rs.wf(),
            total == rs@.rounds,
            rows == rescue_rows(rs@),
            r <= rows,
            sels@.len() == r,
            fixed@.len() == r,
            forall|i: int| 0 <= i < r ==> #[trigger] sels@[i] == rescue_sels_at(rs@, i as nat),
            forall|i: int|
                0 <= i < r ==> (#[trigger] fixed@[i])@ == rescue_fixed_at(rs@, i as nat)
                    && fixed@[i].wf(),
        decreases rows - r,
    {
        let k: usize = r / 6;
        let ph: usize = r % 6;
        let s = RowSels {
            arc: ph == 2 || ph == 5,
            mds: ph == 1 || ph == 4,
            sbox_full: ph == 0 && r + 1 < rows,
            sbox_partial: false,
            sbox_inv: ph == 3,
        };
        proof {
            assert(k as nat == (r as nat) / 6 && ph as nat == (r as nat) % 6);
            assert(s == rescue_sels_at(rs@, r as nat));
        }
        sels.push(s);
        let f = if ph == 2 {
            proof {
                assert(3 * (2 * (k as nat)) + 3 <= rs.constants@.len());
            }
            rc_triple(&rs.constants, 2 * k)
        } else if ph == 5 {
            proof {
                assert(3 * (2 * (k as nat) + 1) + 3 <= rs.constants@.len());
            }
            rc_triple(&rs.constants, 2 * k + 1)
        } else {
            zero_state()
        };
        fixed.push(f);
        r = r + 1;
    }
    let layout = Layout { sels, fixed, eq_pairs: Vec::new() };
    proof {
        assert(rescue_sels_at(rs@, (rescue_rows(rs@) - 1) as nat).arc == false);
        assert(sels_none(layout.sels@[layout.sels@.len() - 1]));
    }
    let mut gates: Vec<Gate> = Vec::new();
    gates.push(Gate { family: GateFamily::Arc, polys: arc_gate() });
    gates.push(Gate { family: GateFamily::MdsMul, polys: mds_gate(&rs.mds) });
    gates.push(Gate { family: GateFamily::SboxFull, polys: sbox_full_gate(rs.alpha) });
    gates.push(Gate { family: GateFamily::SboxInv, polys: sbox_inv_gate(rs.alpha) });
    Ok(CircuitConfig { gates, layout })
}

} // verus!
