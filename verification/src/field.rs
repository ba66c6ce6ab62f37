//! Field elements of the BLS12-381 scalar field, held as 32 little-endian
//! bytes, with modular arithmetic delegated to `num_bigint` behind exactly
//! specified wrappers.

use vstd::prelude::*;
use std::str::FromStr;
use num_bigint::BigUint;

verus! {

use vstd::arithmetic::div_mod::*;
use vstd::arithmetic::mul::*;
use vstd::string::StringSliceAdditionalSpecFns;

/// 256^n, the weight of byte position `n` in a little-endian byte string.
pub open spec fn pow256(n: nat) -> nat
    decreases n,
{
    if n == 0 {
        1
    } else {
        256 * pow256((n - 1) as nat)
    }
}

/// Value of a little-endian byte string.
pub open spec fn le_val(s: Seq<u8>) -> nat
    decreases s.len(),
{
    if s.len() == 0 {
        0
    } else {
        (s[0] as nat) + 256 * le_val(s.skip(1))
    }
}

/// b^e over the naturals.
pub open spec fn pow_nat(b: nat, e: nat) -> nat
    decreases e,
{
    if e == 0 {
        1
    } else {
        b * pow_nat(b, (e - 1) as nat)
    }
}

/// The BLS12-381 scalar-field modulus,
/// 0x73eda753299d7d483339d80809a1d80553bda402fffe5bfeffffffff00000001.
pub open spec fn p_val() -> nat {
    52435875175126190479447740508185965837690552500527637822603658699938581184513nat
}

/// Field addition.
pub open spec fn add_p(a: nat, b: nat) -> nat {
    (a + b) % p_val()
}

/// Field multiplication.
pub open spec fn mul_p(a: nat, b: nat) -> nat {
    (a * b) % p_val()
}

/// Field subtraction (total; canonical for arguments below the modulus).
pub open spec fn sub_p(a: nat, b: nat) -> nat {
    (((a + p_val()) - b) % (p_val() as int)) as nat
}

/// Field exponentiation by a natural exponent.
pub open spec fn pow_p(b: nat, e: nat) -> nat {
    pow_nat(b, e) % p_val()
}

/// Decimal value of a byte string of ASCII digits (most significant first).
pub open spec fn dec_val(s: Seq<u8>) -> nat
    decreases s.len(),
{
    if s.len() == 0 {
        0
    } else {
        10 * dec_val(s.drop_last()) + (if s.last() < 48 {
            0nat
        } else {
            (s.last() - 48) as nat
        })
    }
}

/// A byte string that is a well-formed decimal numeral: nonempty, ASCII digits only.
pub open spec fn dec_str_ok(s: Seq<u8>) -> bool {
    s.len() >= 1 && forall|i: int| 0 <= i < s.len() ==> 48 <= #[trigger] s[i] <= 57
}

/// Ground values of the byte-position weights used by 32-byte strings.
pub proof fn lemma_pow256_vals()
    ensures
        pow256(8) == 0x10000000000000000,
        pow256(16) == 0x100000000000000000000000000000000,
        pow256(24) == 0x1000000000000000000000000000000000000000000000000,
        pow256(32) == 0x10000000000000000000000000000000000000000000000000000000000000000,
{
    reveal_with_fuel(pow256, 33);
}

/// Appending a byte adds its value at the next position weight.
pub proof fn lemma_le_val_snoc(s: Seq<u8>, b: u8)
    ensures
        le_val(s.push(b)) == le_val(s) + (b as nat) * pow256(s.len()),
    decreases s.len(),
{
    if s.len() == 0 {
        assert(s.push(b).skip(1) =~= Seq::<u8>::empty());
        assert(s.push(b)[0] == b);
        assert(le_val(s.push(b)) == (b as nat) + 256 * le_val(s.push(b).skip(1)));
        assert(le_val(s) == 0);
        assert(pow256(s.len()) == 1);
        assert((b as nat) * 1 == b as nat);
    } else {
        assert(s.push(b).skip(1) =~= s.skip(1).push(b));
        lemma_le_val_snoc(s.skip(1), b);
        let t = pow256((s.len() - 1) as nat);
        assert(s.push(b)[0] == s[0]);
        assert(le_val(s.push(b)) == (s[0] as nat) + 256 * le_val(s.skip(1).push(b)));
        assert(le_val(s.skip(1).push(b)) == le_val(s.skip(1)) + (b as nat) * t);
        assert(pow256(s.len()) == 256 * t);
        assert(le_val(s) == (s[0] as nat) + 256 * le_val(s.skip(1)));
        assert(le_val(s.push(b)) == le_val(s) + (b as nat) * pow256(s.len())) by (nonlinear_arith)
            requires
                le_val(s.push(b)) == (s[0] as nat) + 256 * (le_val(s.skip(1)) + (b as nat) * t),
                le_val(s) == (s[0] as nat) + 256 * le_val(s.skip(1)),
                pow256(s.len()) == 256 * t,
        ;
    }
}

/// Equal-length byte strings with the same value are equal.
pub proof fn lemma_le_val_inj(a: Seq<u8>, b: Seq<u8>)
    requires
        a.len() == b.len(),
        le_val(a) == le_val(b),
    ensures
        a == b,
    decreases a.len(),
{
    if a.len() == 0 {
        assert(a =~= b);
    } else {
        lemma_mod_multiples_vanish(le_val(a.skip(1)) as int, a[0] as int, 256);
        lemma_mod_multiples_vanish(le_val(b.skip(1)) as int, b[0] as int, 256);
        lemma_small_mod(a[0] as nat, 256);
        lemma_small_mod(b[0] as nat, 256);
        assert(a[0] == b[0]);
        lemma_le_val_inj(a.skip(1), b.skip(1));
        assert(a =~= b) by {
            assert(forall|i: int| 1 <= i < a.len() ==> #[trigger] a[i] == a.skip(1)[i - 1]
                && b[i] == b.skip(1)[i - 1]);
        }
    }
}

/// Trailing zero bytes do not change the value.
pub proof fn lemma_le_val_zero_ext(s: Seq<u8>, n: nat)
    requires
        n <= s.len(),
        forall|i: int| n <= i < s.len() ==> #[trigger] s[i] == 0,
    ensures
        le_val(s) == le_val(s.take(n as int)),
    decreases s.len() - n,
{
    if s.len() == n {
        assert(s.take(n as int) =~= s);
    } else {
        let s1 = s.take((s.len() - 1) as int);
        assert(s =~= s1.push(s[s.len() - 1]));
        lemma_le_val_snoc(s1, s[s.len() - 1]);
        lemma_le_val_zero_ext(s1, n);
        assert(s1.take(n as int) =~= s.take(n as int));
    }
}

/// One multiply-accumulate step of a fixed-base power chain, in the field.
pub proof fn lemma_pow_p_step(x: nat, i: nat)
    ensures
        mul_p(pow_p(x, i), x) == pow_p(x, i + 1),
{
    lemma_mul_mod_noop_left(pow_nat(x, i) as int, x as int, p_val() as int);
    assert(pow_nat(x, i + 1) == x * pow_nat(x, i));
    assert(pow_nat(x, i) * x == x * pow_nat(x, i)) by (nonlinear_arith);
}

/// pow256 never decreases.
pub proof fn lemma_pow256_mono(a: nat, b: nat)
    requires
        a <= b,
    ensures
        pow256(a) <= pow256(b),
    decreases b,
{
    if a < b {
        lemma_pow256_mono(a, (b - 1) as nat);
        assert(pow256(b) == 256 * pow256((b - 1) as nat));
    }
}

/// A nonzero byte at position `k` puts the value at or above that position's weight.
pub proof fn lemma_le_val_lower(s: Seq<u8>, k: nat)
    requires
        k < s.len(),
        s[k as int] >= 1,
    ensures
        le_val(s) >= pow256(k),
    decreases k,
{
    if k == 0 {
    } else {
        lemma_le_val_lower(s.skip(1), (k - 1) as nat);
        assert(s.skip(1)[k - 1] == s[k as int]);
        assert(256 * le_val(s.skip(1)) >= 256 * pow256((k - 1) as nat));
        assert(pow256(k) == 256 * pow256((k - 1) as nat));
    }
}

/// For canonical operands the field subtraction vanishes exactly on equality.
pub proof fn lemma_sub_p_zero_iff(a: nat, b: nat)
    requires
        a < p_val(),
        b < p_val(),
    ensures
        (sub_p(a, b) == 0) <==> (a == b),
{
    let p = p_val() as int;
    let d = a + p_val() - b;
    if a == b {
        lemma_mod_self_0(p);
    } else if d < p_val() {
        lemma_small_mod(d as nat, p_val());
    } else {
        lemma_mod_sub_multiples_vanish(d as int, p);
        lemma_small_mod((d - p_val()) as nat, p_val());
    }
}

/// The first `n` characters are all ASCII decimal digits. Recursing on the
/// index (rather than on a derived sequence) lets a `reveal_with_fuel` unfold
/// it over a revealed string literal.
pub open spec fn digits_pfx(s: Seq<char>, n: int) -> bool
    decreases n,
{
    if n <= 0 {
        true
    } else {
        48 <= s[n - 1] as int <= 57 && digits_pfx(s, n - 1)
    }
}

/// Decimal value of the first `n` characters, most significant first, taking
/// each character's code point less 48 as its digit (exact on digit strings;
/// meaningful only under `digits_pfx`).
pub open spec fn dec_val_chars(s: Seq<char>, n: int) -> int
    decreases n,
{
    if n <= 0 {
        0
    } else {
        10 * dec_val_chars(s, n - 1) + s[n - 1] as int - 48
    }
}

/// Each of the first `n` characters is a digit (and in particular ASCII).
proof fn lemma_digits_pfx_index(s: Seq<char>, n: int, i: int)
    requires
        digits_pfx(s, n),
        0 <= i < n,
    ensures
        48 <= s[i] as int <= 57,
        '\0' <= s[i] <= '\u{7f}',
    decreases n,
{
    if i < n - 1 {
        lemma_digits_pfx_index(s, n - 1, i);
    }
}

/// The decimal value of a digit string's UTF-8 bytes equals the value of its
/// characters: for digits the encoding is one byte per character, equal to
/// the character's code point.
proof fn lemma_dec_val_chars_bytes(s: Seq<char>, b: Seq<u8>, n: int)
    requires
        0 <= n <= s.len(),
        n <= b.len(),
        forall|i: int| 0 <= i < n ==> b[i] == s[i] as u8,
        digits_pfx(s, n),
    ensures
        dec_val(b.take(n)) == dec_val_chars(s, n),
    decreases n,
{
    if n > 0 {
        lemma_dec_val_chars_bytes(s, b, n - 1);
        let t = b.take(n);
        assert(t.drop_last() =~= b.take(n - 1));
        assert(t.last() == b[n - 1]);
        assert(48 <= s[n - 1] as int <= 57);
        assert(b[n - 1] as int == s[n - 1] as int);
        assert(dec_val(t) == 10 * dec_val(t.drop_last()) + (if t.last() < 48 {
            0nat
        } else {
            (t.last() - 48) as nat
        }));
    }
}

/// Bridge from a revealed literal's characters to its bytes: a nonempty
/// all-digit string is well formed as a decimal numeral and its byte string's
/// decimal value is its characters' decimal value.
pub proof fn lemma_dec_lit(s: &str, n: nat)
    requires
        s@.len() >= 1,
        digits_pfx(s@, s@.len() as int),
        dec_val_chars(s@, s@.len() as int) == n,
    ensures
        dec_str_ok(s.spec_bytes()),
        dec_val(s.spec_bytes()) == n,
{
    let cs = s@;
    let len = cs.len() as int;
    assert forall|i: int| 0 <= i < len implies '\0' <= #[trigger] cs[i] <= '\u{7f}' by {
        lemma_digits_pfx_index(cs, len, i);
    }
    assert(vstd::utf8::is_ascii_chars(cs));
    vstd::string::is_ascii_spec_bytes(s);
    let b = s.spec_bytes();
    assert(b.len() == len);
    assert forall|i: int| 0 <= i < len implies b[i] == cs[i] as u8 by {
    }
    assert forall|i: int| 0 <= i < len implies 48 <= #[trigger] b[i] <= 57 by {
        lemma_digits_pfx_index(cs, len, i);
        assert(b[i] == cs[i] as u8);
    }
    lemma_dec_val_chars_bytes(cs, b, len);
    assert(b.take(len) =~= b);
}

/// Relies on num_bigint: `BigUint::from_bytes_le` reads a little-endian byte
/// string, `+` and `%` are exact big-integer addition and remainder, and
/// `to_bytes_le` writes the result back (the remainder is below the modulus,
/// so it fits in the modulus's byte length).
#[verifier::external_body]
pub(crate) fn add_mod_bytes(a: &Vec<u8>, b: &Vec<u8>, m: &Vec<u8>) -> (r: Vec<u8>)
    requires
        le_val(m@) >= 1,
    ensures
        r@.len() == m@.len(),
        le_val(r@) == (le_val(a@) + le_val(b@)) % le_val(m@),
{
    let av = BigUint::from_bytes_le(a.as_slice());
    let bv = BigUint::from_bytes_le(b.as_slice());
    let mv = BigUint::from_bytes_le(m.as_slice());
    let mut r = ((av + bv) % mv).to_bytes_le();
    r.resize(m.len(), 0u8);
    r
}

/// Relies on num_bigint: as `add_mod_bytes`, with `*` the exact big-integer
/// multiplication.
#[verifier::external_body]
pub(crate) fn mul_mod_bytes(a: &Vec<u8>, b: &Vec<u8>, m: &Vec<u8>) -> (r: Vec<u8>)
    requires
        le_val(m@) >= 1,
    ensures
        r@.len() == m@.len(),
        le_val(r@) == (le_val(a@) * le_val(b@)) % le_val(m@),
{
    let av = BigUint::from_bytes_le(a.as_slice());
    let bv = BigUint::from_bytes_le(b.as_slice());
    let mv = BigUint::from_bytes_le(m.as_slice());
    let mut r = ((av * bv) % mv).to_bytes_le();
    r.resize(m.len(), 0u8);
    r
}

/// Relies on num_bigint: `BigUint::modpow` returns `(self ^ exponent) % modulus`
/// (and panics only on a zero modulus, which the precondition rules out).
///
/// The last clause additionally relies on Fermat's little theorem for the
/// BLS12-381 scalar prime `p`: its multiplicative group has order `p - 1`, so
/// whenever `a * e == 1 (mod p - 1)` the `a`-th power of `x^e mod p` is `x`
/// again for every canonical `x` (for `x == 0` both sides vanish, since
/// `a * e >= 1` forces `e >= 1`).
#[verifier::external_body]
pub(crate) fn pow_mod_bytes(x: &Vec<u8>, e: &Vec<u8>, m: &Vec<u8>) -> (r: Vec<u8>)
    requires
        le_val(m@) >= 1,
    ensures
        r@.len() == m@.len(),
        le_val(r@) == pow_nat(le_val(x@), le_val(e@)) % le_val(m@),
        (le_val(m@) == p_val() && le_val(x@) < p_val()) ==> (forall|a: nat|
            1 <= a && (a * le_val(e@)) % ((p_val() - 1) as nat) == 1 ==> #[trigger] pow_nat(
                le_val(r@),
                a,
            ) % p_val() == le_val(x@)),
{
    let xv = BigUint::from_bytes_le(x.as_slice());
    let ev = BigUint::from_bytes_le(e.as_slice());
    let mv = BigUint::from_bytes_le(m.as_slice());
    let mut r = xv.modpow(&ev, &mv).to_bytes_le();
    r.resize(m.len(), 0u8);
    r
}

/// Relies on num_bigint: `BigUint::from_str` parses a string of decimal digits
/// (radix 10) to its decimal value, and `to_bytes_le` writes that value in
/// little-endian bytes. The precondition admits only nonempty all-digit
/// strings, on which the parse cannot fail.
#[verifier::external_body]
pub(crate) fn dec_bytes_raw(s: &str) -> (r: Vec<u8>)
    requires
        dec_str_ok(s.spec_bytes()),
    ensures
        le_val(r@) == dec_val(s.spec_bytes()),
{
    BigUint::from_str(s).unwrap().to_bytes_le()
}

/// Append the eight little-endian bytes of `x`.
pub fn push_u64_le(v: &mut Vec<u8>, x: u64)
    ensures
        final(v)@.len() == old(v)@.len() + 8,
        le_val(final(v)@) == le_val(old(v)@) + (x as nat) * pow256(old(v)@.len()),
{
    let mut r: u64 = x;
    let mut j: usize = 0;
    proof {
        reveal_with_fuel(pow256, 9);
    }
    while j < 8
        invariant
            j <= 8,
            v@.len() == old(v)@.len() + j,
            le_val(v@) + (r as nat) * pow256((old(v)@.len() + j) as nat) == le_val(old(v)@) + (
            x as nat) * pow256(old(v)@.len()),
            (r as nat) < pow256((8 - j) as nat),
        decreases 8 - j,
    {
        let b: u8 = (r % 256) as u8;
        let ghost prev = v@;
        let ghost rprev = r as nat;
        proof {
            lemma_le_val_snoc(v@, b);
            lemma_fundamental_div_mod(rprev as int, 256);
        }
        v.push(b);
        r = r / 256;
        j = j + 1;
        proof {
            let w = pow256((old(v)@.len() + j - 1) as nat);
            assert(pow256((old(v)@.len() + j) as nat) == 256 * w);
            assert(le_val(v@) == le_val(prev) + (b as nat) * w);
            assert(rprev == 256 * (r as nat) + (b as nat));
            assert(le_val(v@) + (r as nat) * (256 * w) == le_val(prev) + rprev * w)
                by (nonlinear_arith)
                requires
                    le_val(v@) == le_val(prev) + (b as nat) * w,
                    rprev == 256 * (r as nat) + (b as nat),
            ;
            assert(pow256((8 - j + 1) as nat) == 256 * pow256((8 - j) as nat));
            lemma_multiply_divide_lt(rprev as int, 256, pow256((8 - j) as nat) as int);
        }
    }
    proof {
        assert(pow256(0) == 1);
        assert(r == 0);
    }
}

/// The 32-byte little-endian form of a machine word.
pub fn u64_to_bytes32(x: u64) -> (r: Vec<u8>)
    ensures
        r@.len() == 32,
        le_val(r@) == x as nat,
{
    let mut v: Vec<u8> = Vec::new();
    proof {
        assert(le_val(v@) == 0);
        assert(pow256(0) == 1);
    }
    push_u64_le(&mut v, x);
    proof {
        assert(le_val(v@) == x as nat);
    }
    push_u64_le(&mut v, 0);
    proof {
        assert(le_val(v@) == x as nat);
    }
    push_u64_le(&mut v, 0);
    proof {
        assert(le_val(v@) == x as nat);
    }
    push_u64_le(&mut v, 0);
    proof {
        assert(le_val(v@) == x as nat);
    }
    v
}

/// The 32-byte little-endian form of the field modulus.
pub fn p_bytes() -> (r: Vec<u8>)
    ensures
        r@.len() == 32,
        le_val(r@) == p_val(),
{
    let mut v: Vec<u8> = Vec::new();
    push_u64_le(&mut v, 0xffffffff00000001);
    push_u64_le(&mut v, 0x53bda402fffe5bfe);
    push_u64_le(&mut v, 0x3339d80809a1d805);
    push_u64_le(&mut v, 0x73eda753299d7d48);
    proof {
        lemma_pow256_vals();
    }
    v
}

/// The 32-byte little-endian form of the modulus less one, the order of the
/// field's multiplicative group.
pub fn p_minus_1_bytes() -> (r: Vec<u8>)
    ensures
        r@.len() == 32,
        le_val(r@) == p_val() - 1,
{
    let mut v: Vec<u8> = Vec::new();
    push_u64_le(&mut v, 0xffffffff00000000);
    push_u64_le(&mut v, 0x53bda402fffe5bfe);
    push_u64_le(&mut v, 0x3339d80809a1d805);
    push_u64_le(&mut v, 0x73eda753299d7d48);
    proof {
        lemma_pow256_vals();
    }
    v
}

/// Byte-string equality.
pub fn bytes_eq(a: &Vec<u8>, b: &Vec<u8>) -> (r: bool)
    ensures
        r <==> a@ == b@,
{
    if a.len() != b.len() {
        return false;
    }
    let mut i: usize = 0;
    while i < a.len()
        invariant
            i <= a@.len(),
            a@.len() == b@.len(),
            forall|k: int| 0 <= k < i ==> a@[k] == b@[k],
        decreases a@.len() - i,
    {
        if a[i] != b[i] {
            return false;
        }
        i = i + 1;
    }
    proof {
        assert(a@ =~= b@);
    }
    true
}

/// A field element: 32 little-endian bytes, canonical (value below the modulus).
pub struct Fe {
    pub d: Vec<u8>,
}

impl View for Fe {
    type V = nat;

    open spec fn view(&self) -> nat {
        le_val(self.d@)
    }
}

impl Fe {
    /// Well-formedness: exactly 32 bytes, canonical value.
    pub open spec fn wf(&self) -> bool {
        self.d@.len() == 32 && le_val(self.d@) < p_val()
    }
}

/// A fresh copy of a field element.
pub fn fe_dup(x: &Fe) -> (r: Fe)
    ensures
        r.d@ == x.d@,
        r@ == x@,
{
    let mut d: Vec<u8> = Vec::new();
    let mut i: usize = 0;
    while i < x.d.len()
        invariant
            i <= x.d@.len(),
            d@ == x.d@.take(i as int),
        decreases x.d@.len() - i,
    {
        d.push(x.d[i]);
        proof {
            assert(d@ =~= x.d@.take((i + 1) as int));
        }
        i = i + 1;
    }
    proof {
        assert(x.d@.take(x.d@.len() as int) =~= x.d@);
    }
    Fe { d }
}

/// The field element with a machine-word value.
pub fn fe_from_u64(x: u64) -> (r: Fe)
    ensures
        r.wf(),
        r@ == x as nat,
{
    Fe { d: u64_to_bytes32(x) }
}

/// Field-element equality (of values; well-formed elements are canonical).
pub fn fe_eq(a: &Fe, b: &Fe) -> (r: bool)
    requires
        a.wf(),
        b.wf(),
    ensures
        r <==> a@ == b@,
{
    let r = bytes_eq(&a.d, &b.d);
    proof {
        if a@ == b@ {
            lemma_le_val_inj(a.d@, b.d@);
        }
    }
    r
}

/// Field addition.
pub fn fe_add(a: &Fe, b: &Fe) -> (r: Fe)
    requires
        a.wf(),
        b.wf(),
    ensures
        r.wf(),
        r@ == add_p(a@, b@),
{
    let m = p_bytes();
    let d = add_mod_bytes(&a.d, &b.d, &m);
    proof {
        lemma_mod_bound((a@ + b@) as int, p_val() as int);
    }
    Fe { d }
}

/// Field multiplication.
pub fn fe_mul(a: &Fe, b: &Fe) -> (r: Fe)
    requires
        a.wf(),
        b.wf(),
    ensures
        r.wf(),
        r@ == mul_p(a@, b@),
{
    let m = p_bytes();
    let d = mul_mod_bytes(&a.d, &b.d, &m);
    proof {
        lemma_mod_bound((a@ * b@) as int, p_val() as int);
    }
    Fe { d }
}

/// Field power with a small exponent, by repeated multiplication.
pub fn fe_pow_small(x: &Fe, alpha: u64) -> (r: Fe)
    requires
        x.wf(),
        1 <= alpha,
    ensures
        r.wf(),
        r@ == pow_p(x@, alpha as nat),
{
    let mut acc = fe_dup(x);
    let mut i: u64 = 1;
    proof {
        lemma_small_mod(x@, p_val());
        assert(pow_nat(x@, 1) == x@ * pow_nat(x@, 0));
        assert(pow_nat(x@, 0) == 1);
        assert(x@ * 1 == x@);
    }
    while i < alpha
        invariant
            x.wf(),
            acc.wf(),
            1 <= i <= alpha,
            acc@ == pow_p(x@, i as nat),
        decreases alpha - i,
    {
        proof {
            lemma_pow_p_step(x@, i as nat);
        }
        acc = fe_mul(&acc, x);
        i = i + 1;
    }
    acc
}

/// Field power with a large exponent given in little-endian bytes.
///
/// Beyond the exact power value, the result carries the root property handed
/// down from the underlying modular exponentiation: if some `a` inverts the
/// exponent modulo the group order `p - 1`, the `a`-th power of the result is
/// the argument again.
pub fn fe_pow_inv(x: &Fe, e: &Vec<u8>) -> (r: Fe)
    requires
        x.wf(),
    ensures
        r.wf(),
        r@ == pow_p(x@, le_val(e@)),
        forall|a: nat|
            1 <= a && (a * le_val(e@)) % ((p_val() - 1) as nat) == 1 ==> #[trigger] pow_nat(
                r@,
                a,
            ) % p_val() == x@,
{
    let m = p_bytes();
    let d = pow_mod_bytes(&x.d, e, &m);
    proof {
        lemma_mod_bound(pow_nat(x@, le_val(e@)) as int, p_val() as int);
    }
    Fe { d }
}

/// Parse a decimal numeral into a field element.
///
/// Returns the element exactly when the string is a nonempty all-digit decimal
/// numeral whose value is canonical (below the modulus); otherwise `None`.
pub fn fe_from_decimal(s: &str) -> (r: Option<Fe>)
    ensures
        match r {
            Some(f) => f.wf() && dec_str_ok(s.spec_bytes()) && dec_val(s.spec_bytes()) < p_val()
                && f@ == dec_val(s.spec_bytes()),
            None => !(dec_str_ok(s.spec_bytes()) && dec_val(s.spec_bytes()) < p_val()),
        },
{
    let bs = s.as_bytes();
    if bs.len() == 0 {
        return None;
    }
    let mut i: usize = 0;
    while i < bs.len()
        invariant
            i <= bs@.len(),
            bs@ == s.spec_bytes(),
            forall|k: int| 0 <= k < i ==> 48 <= #[trigger] bs@[k] <= 57,
        decreases bs@.len() - i,
    {
        let c = bs[i];
        if c < 48 || c > 57 {
            return None;
        }
        i = i + 1;
    }
    let raw = dec_bytes_raw(s);
    let mut d: Vec<u8> = Vec::new();
    let mut j: usize = 0;
    while j < 32
        invariant
            j <= 32,
            d@.len() == j,
            le_val(raw@) == dec_val(s.spec_bytes()),
            forall|k: int|
                0 <= k < j ==> d@[k] == (if k < raw@.len() {
                    raw@[k]
                } else {
                    0u8
                }),
        decreases 32 - j,
    {
        if j < raw.len() {
            let c = raw[j];
            d.push(c);
        } else {
            d.push(0u8);
        }
        j = j + 1;
    }
    let mut k: usize = 32;
    while k < raw.len()
        invariant
            32 <= k,
            k <= raw@.len() || k == 32,
            le_val(raw@) == dec_val(s.spec_bytes()),
            forall|t: int| 32 <= t < k ==> raw@[t] == 0,
        decreases raw@.len() - k,
    {
        if raw[k] != 0 {
            proof {
                lemma_le_val_lower(raw@, k as nat);
                lemma_pow256_mono(32, k as nat);
                lemma_pow256_vals();
            }
            return None;
        }
        k = k + 1;
    }
    proof {
        if raw@.len() <= 32 {
            assert(d@.take(raw@.len() as int) =~= raw@);
            lemma_le_val_zero_ext(d@, raw@.len());
        } else {
            assert(d@ =~= raw@.take(32));
            lemma_le_val_zero_ext(raw@, 32);
        }
        assert(le_val(d@) == dec_val(s.spec_bytes()));
    }
    let m = p_bytes();
    let z = u64_to_bytes32(0);
    let red = add_mod_bytes(&d, &z, &m);
    let ok = bytes_eq(&red, &d);
    if ok {
        proof {
            lemma_mod_bound(le_val(d@) as int, p_val() as int);
        }
        Some(Fe { d })
    } else {
        proof {
            if le_val(d@) < p_val() {
                lemma_small_mod(le_val(d@), p_val());
                lemma_le_val_inj(red@, d@);
            }
        }
        None
    }
}

} // verus!
