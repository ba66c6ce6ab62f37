//! A library of gates: each constraint family as a polynomial over the current
//! row's and next row's state lanes, the current row's constant lanes, and the
//! gate's selector, pre-multiplied by the selector so it vanishes when the
//! gate is inactive.
//!
//! Each constructor proves two things of its polynomials: their degree (the
//! selector counts, so a forward S-box polynomial has degree `alpha + 1`), and
//! that for canonical assignments with a boolean selector they vanish exactly
//! when the intended row transition holds (or the selector is off).

use vstd::prelude::*;
use crate::field::{
    add_p, fe_dup, lemma_pow_p_step, lemma_sub_p_zero_iff, mul_p, p_val, pow_nat, pow_p, sub_p, Fe,
};
use crate::state::{lane, mds_v, sv_wf, Mds, MdsV, StateV};

verus! {

use vstd::arithmetic::div_mod::{lemma_mod_bound, lemma_small_mod};

/// A gate polynomial: constants, variable queries, and ring operations in the
/// field.
pub enum Expr {
    /// A fixed coefficient baked into the polynomial.
    Const(Fe),
    /// Lane `l` of the current row's state columns.
    Cur(usize),
    /// Lane `l` of the next row's state columns.
    Next(usize),
    /// Lane `l` of the current row's constant columns.
    Fix(usize),
    /// This gate's selector.
    Sel,
    Add(Box<Expr>, Box<Expr>),
    Sub(Box<Expr>, Box<Expr>),
    Mul(Box<Expr>, Box<Expr>),
}

/// An assignment to the variables a gate polynomial can query.
pub ghost struct GateEnv {
    pub cur: StateV,
    pub nxt: StateV,
    pub fix: StateV,
    pub sel: nat,
}

/// Canonical lanes and a boolean selector.
pub open spec fn env_wf(env: GateEnv) -> bool {
    sv_wf(env.cur) && sv_wf(env.nxt) && sv_wf(env.fix) && env.sel <= 1
}

/// Structurally well-formed polynomial: canonical coefficients, lanes in range.
pub open spec fn expr_wf(e: Expr) -> bool
    decreases e,
{
    match e {
        Expr::Const(f) => f.wf(),
        Expr::Cur(l) => l < 3,
        Expr::Next(l) => l < 3,
        Expr::Fix(l) => l < 3,
        Expr::Sel => true,
        Expr::Add(a, b) => expr_wf(*a) && expr_wf(*b),
        Expr::Sub(a, b) => expr_wf(*a) && expr_wf(*b),
        Expr::Mul(a, b) => expr_wf(*a) && expr_wf(*b),
    }
}

/// The polynomial's value under an assignment, in the field.
pub open spec fn eval_expr(e: Expr, env: GateEnv) -> nat
    decreases e,
{
    match e {
        Expr::Const(f) => f@,
        Expr::Cur(l) => lane(env.cur, l as int),
        Expr::Next(l) => lane(env.nxt, l as int),
        Expr::Fix(l) => lane(env.fix, l as int),
        Expr::Sel => env.sel,
        Expr::Add(a, b) => add_p(eval_expr(*a, env), eval_expr(*b, env)),
        Expr::Sub(a, b) => sub_p(eval_expr(*a, env), eval_expr(*b, env)),
        Expr::Mul(a, b) => mul_p(eval_expr(*a, env), eval_expr(*b, env)),
    }
}

/// Total degree, counting every variable query (selector included) as one.
pub open spec fn degree(e: Expr) -> nat
    decreases e,
{
    match e {
        Expr::Const(_) => 0,
        Expr::Cur(_) => 1,
        Expr::Next(_) => 1,
        Expr::Fix(_) => 1,
        Expr::Sel => 1,
        Expr::Add(a, b) => if degree(*a) >= degree(*b) {
            degree(*a)
        } else {
            degree(*b)
        },
        Expr::Sub(a, b) => if degree(*a) >= degree(*b) {
            degree(*a)
        } else {
            degree(*b)
        },
        Expr::Mul(a, b) => degree(*a) + degree(*b),
    }
}

/// A selector-gated factor keeps the value when active and kills it when not.
proof fn lemma_sel_factor(sel: nat, x: nat)
    requires
        sel <= 1,
        x < p_val(),
    ensures
        mul_p(sel, x) == (if sel == 1 {
            x
        } else {
            0
        }),
{
    if sel == 1 {
        lemma_small_mod(x, p_val());
    } else {
        lemma_small_mod(0, p_val());
    }
}

/// What the ARC gate's polynomials certify: one polynomial per lane, each of
/// degree 2, vanishing under a canonical assignment exactly when the selector
/// is off or the lane was carried to the next row with its constant added.
pub open spec fn arc_polys_ok(polys: Seq<Expr>) -> bool {
    &&& polys.len() == 3
    &&& (forall|i: int| 0 <= i < 3 ==> expr_wf(#[trigger] polys[i]) && degree(polys[i]) == 2)
    &&& (forall|i: int, env: GateEnv|
        0 <= i < 3 && env_wf(env) ==> (#[trigger] eval_expr(polys[i], env) == 0 <==> (env.sel == 1
            ==> lane(env.nxt, i) == add_p(lane(env.cur, i), lane(env.fix, i)))))
}

/// What the MDS gate's polynomials certify: one polynomial per lane, each of
/// degree 2, vanishing exactly when the selector is off or the next row is the
/// matrix applied to the current one.
pub open spec fn mds_polys_ok(polys: Seq<Expr>, m: MdsV) -> bool {
    &&& polys.len() == 3
    &&& (forall|i: int| 0 <= i < 3 ==> expr_wf(#[trigger] polys[i]) && degree(polys[i]) == 2)
    &&& (forall|i: int, env: GateEnv|
        0 <= i < 3 && env_wf(env) ==> (#[trigger] eval_expr(polys[i], env) == 0 <==> (env.sel == 1
            ==> lane(env.nxt, i) == lane(mds_v(m, env.cur), i))))
}

/// What the forward S-box gate's polynomials certify: one polynomial per lane,
/// each of degree `alpha + 1`, vanishing exactly when the selector is off or
/// the next row's lane is the current one raised to `alpha`.
pub open spec fn sbox_full_polys_ok(polys: Seq<Expr>, alpha: nat) -> bool {
    &&& polys.len() == 3
    &&& (forall|i: int|
        0 <= i < 3 ==> expr_wf(#[trigger] polys[i]) && degree(polys[i]) == alpha + 1)
    &&& (forall|i: int, env: GateEnv|
        0 <= i < 3 && env_wf(env) ==> (#[trigger] eval_expr(polys[i], env) == 0 <==> (env.sel == 1
            ==> lane(env.nxt, i) == pow_p(lane(env.cur, i), alpha))))
}

/// What the partial S-box gate's polynomial certifies: a single polynomial of
/// degree `alpha + 1` for lane 0; lanes 1 and 2 carry no algebraic constraint.
pub open spec fn sbox_partial_polys_ok(polys: Seq<Expr>, alpha: nat) -> bool {
    &&& polys.len() == 1
    &&& expr_wf(polys[0]) && degree(polys[0]) == alpha + 1
    &&& (forall|env: GateEnv|
        env_wf(env) ==> (#[trigger] eval_expr(polys[0], env) == 0 <==> (env.sel == 1 ==> env.nxt.s0
            == pow_p(env.cur.s0, alpha))))
}

/// What the inverse S-box gate's polynomials certify: one polynomial per lane,
/// each of degree `alpha + 1`, constraining the forward direction in reverse:
/// the current row's lane is the next one raised to `alpha`.
pub open spec fn sbox_inv_polys_ok(polys: Seq<Expr>, alpha: nat) -> bool {
    &&& polys.len() == 3
    &&& (forall|i: int|
        0 <= i < 3 ==> expr_wf(#[trigger] polys[i]) && degree(polys[i]) == alpha + 1)
    &&& (forall|i: int, env: GateEnv|
        0 <= i < 3 && env_wf(env) ==> (#[trigger] eval_expr(polys[i], env) == 0 <==> (env.sel == 1
            ==> lane(env.cur, i) == pow_p(lane(env.nxt, i), alpha))))
}

/// The power chain `v^alpha` on lane `l` of the current (or next) row,
/// written as repeated multiplication.
fn pow_chain(l: usize, on_next: bool, alpha: u64) -> (e: Expr)
    requires
        l < 3,
        1 <= alpha,
    ensures
        expr_wf(e),
        degree(e) == alpha,
        forall|env: GateEnv|
            env_wf(env) ==> #[trigger] eval_expr(e, env) == pow_p(
                lane(
                    if on_next {
                        env.nxt
                    } else {
                        env.cur
                    },
                    l as int,
                ),
                alpha as nat,
            ),
{
    let mut acc = if on_next {
        Expr::Next(l)
    } else {
        Expr::Cur(l)
    };
    let mut i: u64 = 1;
    proof {
        assert forall|env: GateEnv| env_wf(env) implies #[trigger] eval_expr(acc, env) == pow_p(
            lane(
                if on_next {
                    env.nxt
                } else {
                    env.cur
                },
                l as int,
            ),
            1,
        ) by {
            let v = lane(
                if on_next {
                    env.nxt
                } else {
                    env.cur
                },
                l as int,
            );
            assert(pow_nat(v, 1) == v * pow_nat(v, 0));
            assert(pow_nat(v, 0) == 1);
            assert(v * 1 == v);
            lemma_small_mod(v, p_val());
        }
    }
    while i < alpha
        invariant
            l < 3,
            1 <= i <= alpha,
            expr_wf(acc),
            degree(acc) == i,
            forall|env: GateEnv|
                env_wf(env) ==> #[trigger] eval_expr(acc, env) == pow_p(
                    lane(
                        if on_next {
                            env.nxt
                        } else {
                            env.cur
                        },
                        l as int,
                    ),
                    i as nat,
                ),
        decreases alpha - i,
    {
        let ghost prev = acc;
        let base = if on_next {
            Expr::Next(l)
        } else {
            Expr::Cur(l)
        };
        acc = Expr::Mul(Box::new(acc), Box::new(base));
        proof {
            reveal_with_fuel(expr_wf, 3);
            reveal_with_fuel(degree, 3);
            assert(expr_wf(acc));
            assert(degree(acc) == i + 1);
            assert forall|env: GateEnv| env_wf(env) implies #[trigger] eval_expr(acc, env)
                == pow_p(
                lane(
                    if on_next {
                        env.nxt
                    } else {
                        env.cur
                    },
                    l as int,
                ),
                (i + 1) as nat,
            ) by {
                reveal_with_fuel(eval_expr, 3);
                let v = lane(
                    if on_next {
                        env.nxt
                    } else {
                        env.cur
                    },
                    l as int,
                );
                assert(eval_expr(acc, env) == mul_p(eval_expr(prev, env), v));
                lemma_pow_p_step(v, i as nat);
            }
        }
        i = i + 1;
    }
    acc
}

/// The ARC gate: on each lane, `next = current + constant`, the constant read
/// from the constant-bearing column of the current row.
pub fn arc_gate() -> (g: Vec<Expr>)
    ensures
        arc_polys_ok(g@),
{
    let mut g: Vec<Expr> = Vec::new();
    let mut l: usize = 0;
    while l < 3
        invariant
            l <= 3,
            g@.len() == l,
            forall|i: int| 0 <= i < l ==> expr_wf(#[trigger] g@[i]) && degree(g@[i]) == 2,
            forall|i: int, env: GateEnv|
                0 <= i < l && env_wf(env) ==> (#[trigger] eval_expr(g@[i], env) == 0 <==> (env.sel
                    == 1 ==> lane(env.nxt, i) == add_p(lane(env.cur, i), lane(env.fix, i)))),
        decreases 3 - l,
    {
        let e = Expr::Mul(
            Box::new(Expr::Sel),
            Box::new(
                Expr::Sub(
                    Box::new(Expr::Next(l)),
                    Box::new(Expr::Add(Box::new(Expr::Cur(l)), Box::new(Expr::Fix(l)))),
                ),
            ),
        );
        proof {
            reveal_with_fuel(expr_wf, 8);
            reveal_with_fuel(degree, 8);
            assert(expr_wf(e));
            assert(degree(e) == 2);
            assert forall|env: GateEnv| env_wf(env) implies (#[trigger] eval_expr(e, env) == 0
                <==> (env.sel == 1 ==> lane(env.nxt, l as int) == add_p(
                lane(env.cur, l as int),
                lane(env.fix, l as int),
            ))) by {
                reveal_with_fuel(eval_expr, 8);
                let rhs = add_p(lane(env.cur, l as int), lane(env.fix, l as int));
                let x = sub_p(lane(env.nxt, l as int), rhs);
                lemma_mod_bound((lane(env.cur, l as int) + lane(env.fix, l as int)) as int, p_val() as int);
                lemma_mod_bound(
                    ((lane(env.nxt, l as int) + p_val()) - rhs) as int,
                    p_val() as int,
                );
                lemma_sel_factor(env.sel, x);
                lemma_sub_p_zero_iff(lane(env.nxt, l as int), rhs);
            }
        }
        g.push(e);
        l = l + 1;
    }
    g
}

/// The MDS gate: `next = M * current`, the matrix entries baked in as fixed
/// coefficients.
pub fn mds_gate(m: &Mds) -> (g: Vec<Expr>)
    requires
        m.wf(),
    ensures
        mds_polys_ok(g@, m@),
{
    let mut g: Vec<Expr> = Vec::new();
    let mut l: usize = 0;
    while l < 3
        invariant
            l <= 3,
            m.wf(),
            g@.len() == l,
            forall|i: int| 0 <= i < l ==> expr_wf(#[trigger] g@[i]) && degree(g@[i]) == 2,
            forall|i: int, env: GateEnv|
                0 <= i < l && env_wf(env) ==> (#[trigger] eval_expr(g@[i], env) == 0 <==> (env.sel
                    == 1 ==> lane(env.nxt, i) == lane(mds_v(m@, env.cur), i))),
        decreases 3 - l,
    {
        let (a, b, c) = if l == 0 {
            (fe_dup(&m.m00), fe_dup(&m.m01), fe_dup(&m.m02))
        } else if l == 1 {
            (fe_dup(&m.m10), fe_dup(&m.m11), fe_dup(&m.m12))
        } else {
            (fe_dup(&m.m20), fe_dup(&m.m21), fe_dup(&m.m22))
        };
        let e = Expr::Mul(
            Box::new(Expr::Sel),
            Box::new(
                Expr::Sub(
                    Box::new(Expr::Next(l)),
                    Box::new(
                        Expr::Add(
                            Box::new(
                                Expr::Add(
                                    Box::new(
                                        Expr::Mul(Box::new(Expr::Cur(0)), Box::new(Expr::Const(a))),
                                    ),
                                    Box::new(
                                        Expr::Mul(Box::new(Expr::Cur(1)), Box::new(Expr::Const(b))),
                                    ),
                                ),
                            ),
                            Box::new(Expr::Mul(Box::new(Expr::Cur(2)), Box::new(Expr::Const(c)))),
                        ),
                    ),
                ),
            ),
        );
        proof {
            reveal_with_fuel(expr_wf, 10);
            reveal_with_fuel(degree, 10);
            assert(expr_wf(e));
            assert(degree(e) == 2);
            assert forall|env: GateEnv| env_wf(env) implies (#[trigger] eval_expr(e, env) == 0
                <==> (env.sel == 1 ==> lane(env.nxt, l as int) == lane(
                mds_v(m@, env.cur),
                l as int,
            ))) by {
                reveal_with_fuel(eval_expr, 10);
                let rhs = lane(mds_v(m@, env.cur), l as int);
                lemma_mod_bound(
                    (add_p(mul_p(env.cur.s0, a@), mul_p(env.cur.s1, b@)) + mul_p(env.cur.s2, c@))
                        as int,
                    p_val() as int,
                );
                lemma_mod_bound((mul_p(env.cur.s0, a@) + mul_p(env.cur.s1, b@)) as int, p_val() as int);
                assert(eval_expr(e, env) == mul_p(
                    env.sel,
                    sub_p(lane(env.nxt, l as int), rhs),
                ));
                lemma_mod_bound(
                    ((lane(env.nxt, l as int) + p_val()) - rhs) as int,
                    p_val() as int,
                );
                lemma_sel_factor(env.sel, sub_p(lane(env.nxt, l as int), rhs));
                lemma_sub_p_zero_iff(lane(env.nxt, l as int), rhs);
            }
        }
        g.push(e);
        l = l + 1;
    }
    g
}

/// The forward S-box gate: on each lane, `next = current ^ alpha`, written as
/// repeated multiplication. Degree `alpha + 1`, the selector included.
pub fn sbox_full_gate(alpha: u64) -> (g: Vec<Expr>)
    requires
        1 <= alpha,
    ensures
        sbox_full_polys_ok(g@, alpha as nat),
{
    let mut g: Vec<Expr> = Vec::new();
    let mut l: usize = 0;
    while l < 3
        invariant
            l <= 3,
            1 <= alpha,
            g@.len() == l,
            forall|i: int| 0 <= i < l ==> expr_wf(#[trigger] g@[i]) && degree(g@[i]) == alpha + 1,
            forall|i: int, env: GateEnv|
                0 <= i < l && env_wf(env) ==> (#[trigger] eval_expr(g@[i], env) == 0 <==> (env.sel
                    == 1 ==> lane(env.nxt, i) == pow_p(lane(env.cur, i), alpha as nat))),
        decreases 3 - l,
    {
        let e = sbox_lane_poly(l, alpha);
        g.push(e);
        l = l + 1;
    }
    g
}

/// The partial S-box gate (Poseidon): the forward S-box constraint on lane 0
/// only; lanes 1 and 2 carry no algebraic constraint (equality constraints
/// bind them instead).
pub fn sbox_partial_gate(alpha: u64) -> (g: Vec<Expr>)
    requires
        1 <= alpha,
    ensures
        sbox_partial_polys_ok(g@, alpha as nat),
{
    let mut g: Vec<Expr> = Vec::new();
    let e = sbox_lane_poly(0, alpha);
    g.push(e);
    g
}

/// One forward S-box lane polynomial: `sel * (next_l - cur_l ^ alpha)`.
fn sbox_lane_poly(l: usize, alpha: u64) -> (e: Expr)
    requires
        l < 3,
        1 <= alpha,
    ensures
        expr_wf(e),
        degree(e) == alpha + 1,
        forall|env: GateEnv|
            env_wf(env) ==> (#[trigger] eval_expr(e, env) == 0 <==> (env.sel == 1 ==> lane(
                env.nxt,
                l as int,
            ) == pow_p(lane(env.cur, l as int), alpha as nat))),
{
    let chain = pow_chain(l, false, alpha);
    let e = Expr::Mul(Box::new(Expr::Sel), Box::new(Expr::Sub(Box::new(Expr::Next(l)), Box::new(chain))));
    proof {
        reveal_with_fuel(expr_wf, 4);
        reveal_with_fuel(degree, 4);
        assert(expr_wf(e));
        assert(degree(e) == alpha + 1);
        assert forall|env: GateEnv| env_wf(env) implies (#[trigger] eval_expr(e, env) == 0 <==> (
        env.sel == 1 ==> lane(env.nxt, l as int) == pow_p(lane(env.cur, l as int), alpha as nat)))
            by {
            reveal_with_fuel(eval_expr, 4);
            let rhs = pow_p(lane(env.cur, l as int), alpha as nat);
            assert(eval_expr(chain, env) == rhs);
            assert(eval_expr(e, env) == mul_p(env.sel, sub_p(lane(env.nxt, l as int), rhs)));
            lemma_mod_bound(pow_nat(lane(env.cur, l as int), alpha as nat) as int, p_val() as int);
            lemma_mod_bound(((lane(env.nxt, l as int) + p_val()) - rhs) as int, p_val() as int);
            lemma_sel_factor(env.sel, sub_p(lane(env.nxt, l as int), rhs));
            lemma_sub_p_zero_iff(lane(env.nxt, l as int), rhs);
        }
    }
    e
}

/// The inverse S-box gate (Rescue-Prime): constrains the forward direction in
/// reverse, `current = next ^ alpha`, since the inverse exponent itself is far
/// too large for a bounded-degree polynomial.
pub fn sbox_inv_gate(alpha: u64) -> (g: Vec<Expr>)
    requires
        1 <= alpha,
    ensures
        sbox_inv_polys_ok(g@, alpha as nat),
{
    let mut g: Vec<Expr> = Vec::new();
    let mut l: usize = 0;
    while l < 3
        invariant
            l <= 3,
            1 <= alpha,
            g@.len() == l,
            forall|i: int| 0 <= i < l ==> expr_wf(#[trigger] g@[i]) && degree(g@[i]) == alpha + 1,
            forall|i: int, env: GateEnv|
                0 <= i < l && env_wf(env) ==> (#[trigger] eval_expr(g@[i], env) == 0 <==> (env.sel
                    == 1 ==> lane(env.cur, i) == pow_p(lane(env.nxt, i), alpha as nat))),
        decreases 3 - l,
    {
        let chain = pow_chain(l, true, alpha);
        let e = Expr::Mul(
            Box::new(Expr::Sel),
            Box::new(Expr::Sub(Box::new(Expr::Cur(l)), Box::new(chain))),
        );
        proof {
            reveal_with_fuel(expr_wf, 4);
            reveal_with_fuel(degree, 4);
            assert(expr_wf(e));
            assert(degree(e) == alpha + 1);
            assert forall|env: GateEnv| env_wf(env) implies (#[trigger] eval_expr(e, env) == 0
                <==> (env.sel == 1 ==> lane(env.cur, l as int) == pow_p(
                lane(env.nxt, l as int),
                alpha as nat,
            ))) by {
                reveal_with_fuel(eval_expr, 4);
                let rhs = pow_p(lane(env.nxt, l as int), alpha as nat);
                assert(eval_expr(chain, env) == rhs);
                assert(eval_expr(e, env) == mul_p(env.sel, sub_p(lane(env.cur, l as int), rhs)));
                lemma_mod_bound(
                    pow_nat(lane(env.nxt, l as int), alpha as nat) as int,
                    p_val() as int,
                );
                lemma_mod_bound(((lane(env.cur, l as int) + p_val()) - rhs) as int, p_val() as int);
                lemma_sel_factor(env.sel, sub_p(lane(env.cur, l as int), rhs));
                lemma_sub_p_zero_iff(lane(env.cur, l as int), rhs);
            }
        }
        g.push(e);
        l = l + 1;
    }
    g
}

} // verus!
