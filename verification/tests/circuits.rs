use sponge_circuits::checker::{verify_trace, VerifyFault};
use sponge_circuits::field::{fe_add, fe_eq, fe_from_decimal, fe_from_u64};
use sponge_circuits::layout::{build_poseidon, build_rescue, zero_state, BuildError, Cell, EqPair, Layout, RowSels};
use sponge_circuits::permute::{poseidon_permute, rescue_permute};
use sponge_circuits::runner::{run_poseidon, run_rescue, Permutation};
use sponge_circuits::state::{st_eq, State};
use sponge_circuits::tables::{standard_poseidon_spec, standard_rescue_spec};
use sponge_circuits::witness::{poseidon_witness, rescue_witness};

// The backend's maximum supported gate degree used throughout: comfortably
// above alpha + 1 = 6.
const MAX_DEGREE: u64 = 9;

fn init_state() -> State {
    State { s0: fe_from_u64(0), s1: fe_from_u64(1), s2: fe_from_u64(2) }
}

fn state_of(d0: &str, d1: &str, d2: &str) -> State {
    State {
        s0: fe_from_decimal(d0).unwrap(),
        s1: fe_from_decimal(d1).unwrap(),
        s2: fe_from_decimal(d2).unwrap(),
    }
}

fn poseidon_expected() -> State {
    state_of(
        "18456658763349757341014058622209659766100673761449600566550821987295786346378",
        "37068251774887509885063625701815026138353041152735229476479055620962268601796",
        "26763157702141528937904191329664859174584798817251788852101947537759678822298",
    )
}

fn rescue_expected() -> State {
    state_of(
        "24676065604765391270595002149851002312234459632041588370575065596694234487355",
        "17816234630274911985482882329786621137677061678250510441033034837924655204720",
        "32362095325492024327617495591945594977492793418106702586392820666794580085697",
    )
}

#[test]
fn poseidon_direct_evaluation_matches_documented_output() {
    let ps = standard_poseidon_spec().unwrap();
    let out = poseidon_permute(&ps, &init_state());
    assert!(st_eq(&out, &poseidon_expected()));
}

#[test]
fn rescue_direct_evaluation_matches_documented_output() {
    let rs = standard_rescue_spec().unwrap();
    let out = rescue_permute(&rs, &init_state());
    assert!(st_eq(&out, &rescue_expected()));
}

#[test]
fn poseidon_run_accepts_documented_output() {
    let ps = standard_poseidon_spec().unwrap();
    let rep = run_poseidon(&ps, &init_state(), &poseidon_expected(), MAX_DEGREE).unwrap();
    assert!(rep.ok);
    // 1 initial row + 3 rows per round over 8 + 57 rounds.
    assert_eq!(rep.rows, 196);
    assert_eq!(rep.gates_enabled, 195);
}

#[test]
fn poseidon_run_rejects_wrong_output() {
    let ps = standard_poseidon_spec().unwrap();
    let rep = run_poseidon(&ps, &init_state(), &init_state(), MAX_DEGREE).unwrap();
    assert!(!rep.ok);
}

#[test]
fn rescue_run_accepts_documented_output() {
    let rs = standard_rescue_spec().unwrap();
    let rep = run_rescue(&rs, &init_state(), &rescue_expected(), MAX_DEGREE).unwrap();
    assert!(rep.ok);
    // 1 initial row + 6 rows per round over 4 rounds.
    assert_eq!(rep.rows, 25);
    assert_eq!(rep.gates_enabled, 24);
}

#[test]
fn rescue_run_rejects_wrong_output() {
    let rs = standard_rescue_spec().unwrap();
    let rep = run_rescue(&rs, &init_state(), &init_state(), MAX_DEGREE).unwrap();
    assert!(!rep.ok);
}

#[test]
fn witness_final_row_equals_direct_evaluation() {
    let ps = standard_poseidon_spec().unwrap();
    let tr = poseidon_witness(&ps, &init_state());
    assert!(st_eq(&tr[tr.len() - 1], &poseidon_permute(&ps, &init_state())));
    let rs = standard_rescue_spec().unwrap();
    let tr = rescue_witness(&rs, &init_state());
    assert!(st_eq(&tr[tr.len() - 1], &rescue_permute(&rs, &init_state())));
}

#[test]
fn row_count_is_independent_of_the_input() {
    let ps = standard_poseidon_spec().unwrap();
    let other = State { s0: fe_from_u64(77), s1: fe_from_u64(0), s2: fe_from_u64(123456) };
    assert_eq!(poseidon_witness(&ps, &init_state()).len(), 196);
    assert_eq!(poseidon_witness(&ps, &other).len(), 196);
    let rs = standard_rescue_spec().unwrap();
    assert_eq!(rescue_witness(&rs, &init_state()).len(), 25);
    assert_eq!(rescue_witness(&rs, &other).len(), 25);
}

#[test]
fn build_rejects_too_small_gate_degree() {
    let ps = standard_poseidon_spec().unwrap();
    // The forward S-box polynomial has degree alpha + 1 = 6.
    assert_eq!(build_poseidon(&ps, 5).err().unwrap(), BuildError::DegreeExceeded);
    assert!(build_poseidon(&ps, 6).is_ok());
    let rs = standard_rescue_spec().unwrap();
    assert_eq!(build_rescue(&rs, 5).err().unwrap(), BuildError::DegreeExceeded);
    assert!(build_rescue(&rs, 6).is_ok());
}

#[test]
fn tampered_pass_through_cell_is_rejected() {
    let ps = standard_poseidon_spec().unwrap();
    let cfg = build_poseidon(&ps, MAX_DEGREE).unwrap();
    let init = init_state();
    let mut tr = poseidon_witness(&ps, &init);
    let pubs = poseidon_permute(&ps, &init);
    // The honest trace verifies.
    assert!(verify_trace(ps.alpha, &ps.mds, &cfg.layout, &tr, &pubs).is_ok());
    // Round 4 is the first partial round; row 14 = 3*4 + 2 receives the
    // pass-through copies on lanes 1 and 2. Nudge the lane-1 copy alone.
    let row = 14;
    tr[row].s1 = fe_add(&tr[row].s1, &fe_from_u64(1));
    let r = verify_trace(ps.alpha, &ps.mds, &cfg.layout, &tr, &pubs);
    assert!(r.is_err());
}

#[test]
fn tampered_final_cell_is_rejected() {
    let rs = standard_rescue_spec().unwrap();
    let cfg = build_rescue(&rs, MAX_DEGREE).unwrap();
    let init = init_state();
    let mut tr = rescue_witness(&rs, &init);
    let pubs = rescue_permute(&rs, &init);
    assert!(verify_trace(rs.alpha, &rs.mds, &cfg.layout, &tr, &pubs).is_ok());
    let last = tr.len() - 1;
    tr[last].s2 = fe_add(&tr[last].s2, &fe_from_u64(1));
    // The mutation both breaks the final ARC gate and unbinds the outputs.
    let r = verify_trace(rs.alpha, &rs.mds, &cfg.layout, &tr, &pubs);
    assert!(r.is_err());
    // Fixing the claimed outputs to the tampered cell still leaves that gate broken.
    let mut pubs2 = pubs;
    pubs2.s2 = fe_add(&pubs2.s2, &fe_from_u64(1));
    let r2 = verify_trace(rs.alpha, &rs.mds, &cfg.layout, &tr, &pubs2);
    assert!(matches!(r2.err().unwrap(), VerifyFault::Gate { .. }));
}

#[test]
fn trace_with_wrong_row_count_is_rejected() {
    let ps = standard_poseidon_spec().unwrap();
    let cfg = build_poseidon(&ps, MAX_DEGREE).unwrap();
    let init = init_state();
    let mut tr = poseidon_witness(&ps, &init);
    let pubs = poseidon_permute(&ps, &init);
    tr.pop();
    let r = verify_trace(ps.alpha, &ps.mds, &cfg.layout, &tr, &pubs);
    assert_eq!(r.err().unwrap(), VerifyFault::RowCount);
}

#[test]
fn tampered_intermediate_cell_is_rejected() {
    // Poseidon soundness in action: no cell of a satisfying trace can deviate
    // from the honest execution, not only the equality-constrained ones.
    let ps = standard_poseidon_spec().unwrap();
    let cfg = build_poseidon(&ps, MAX_DEGREE).unwrap();
    let init = init_state();
    let mut tr = poseidon_witness(&ps, &init);
    let pubs = poseidon_permute(&ps, &init);
    tr[50].s0 = fe_add(&tr[50].s0, &fe_from_u64(1));
    assert!(verify_trace(ps.alpha, &ps.mds, &cfg.layout, &tr, &pubs).is_err());
}

#[test]
fn permutation_dispatch_runs_both_constructions() {
    let pose = Permutation::Poseidon(standard_poseidon_spec().unwrap());
    let out = pose.permute(&init_state());
    assert!(st_eq(&out, &poseidon_expected()));
    let rep = pose.run(&init_state(), &out, MAX_DEGREE).unwrap();
    assert!(rep.ok && rep.fault.is_none() && rep.rows == 196);
    let tr = pose.synthesize(&init_state());
    assert!(st_eq(&tr[tr.len() - 1], &out));

    let rescue = Permutation::RescuePrime(standard_rescue_spec().unwrap());
    let out = rescue.permute(&init_state());
    assert!(st_eq(&out, &rescue_expected()));
    let rep = rescue.run(&init_state(), &out, MAX_DEGREE).unwrap();
    assert!(rep.ok && rep.fault.is_none() && rep.rows == 25);
    assert!(rescue.configure(MAX_DEGREE).is_ok());
}

#[test]
fn run_report_names_the_fault_on_mismatch() {
    let ps = standard_poseidon_spec().unwrap();
    let rep = run_poseidon(&ps, &init_state(), &init_state(), MAX_DEGREE).unwrap();
    assert!(!rep.ok);
    assert_eq!(rep.fault.unwrap(), VerifyFault::PublicMismatch);
}

#[test]
fn violated_equality_constraint_is_reported() {
    // A two-row layout with no gates and one copy constraint between the rows'
    // lane-0 cells: the checker reports exactly that constraint.
    let off = RowSels { arc: false, mds: false, sbox_full: false, sbox_partial: false, sbox_inv: false };
    let layout = Layout {
        sels: vec![off, off],
        fixed: vec![zero_state(), zero_state()],
        eq_pairs: vec![EqPair { a: Cell { row: 0, lane: 0 }, b: Cell { row: 1, lane: 0 } }],
    };
    let mds = sponge_circuits::tables::standard_mds().unwrap();
    let rows = vec![
        State { s0: fe_from_u64(7), s1: fe_from_u64(0), s2: fe_from_u64(0) },
        State { s0: fe_from_u64(8), s1: fe_from_u64(0), s2: fe_from_u64(0) },
    ];
    let pubs = State { s0: fe_from_u64(8), s1: fe_from_u64(0), s2: fe_from_u64(0) };
    let r = verify_trace(5, &mds, &layout, &rows, &pubs);
    assert_eq!(r.err().unwrap(), VerifyFault::Equality { index: 0 });
    // With matching cells the same trace passes.
    let rows_ok = vec![
        State { s0: fe_from_u64(7), s1: fe_from_u64(0), s2: fe_from_u64(0) },
        State { s0: fe_from_u64(7), s1: fe_from_u64(0), s2: fe_from_u64(0) },
    ];
    let pubs_ok = State { s0: fe_from_u64(7), s1: fe_from_u64(0), s2: fe_from_u64(0) };
    assert!(verify_trace(5, &mds, &layout, &rows_ok, &pubs_ok).is_ok());
}
