//! Weights of weighted balancing strategies: decimals kept as written, that
//! compare and hash by the number they denote.
use vstd::prelude::*;
use vstd::std_specs::cmp::PartialEqSpecImpl;

verus! {

/// The largest magnitude a decimal mantissa can have (2^96 - 1), plus one.
pub open spec fn mantissa_bound() -> int {
    0x1_0000_0000_0000_0000_0000_0000
}

/// Whether `mantissa * 10^(-scale)` is a decimal: a mantissa of at most 96
/// bits and a scale of at most 28.
pub open spec fn is_decimal(mantissa: int, scale: int) -> bool {
    &&& -mantissa_bound() < mantissa < mantissa_bound()
    &&& 0 <= scale <= 28
}

/// The number that a decimal denotes, in normalized form.
pub struct DecimalValue {
    pub mantissa: int,
    pub scale: nat,
}

/// `mantissa * 10^(-scale)` with the trailing zeros of its fraction removed:
/// two decimals denote the same number exactly when their normalized forms
/// are equal.
pub open spec fn normalize(mantissa: int, scale: nat) -> DecimalValue
    decreases scale,
{
    if scale > 0 && mantissa % 10 == 0 {
        normalize(mantissa / 10, (scale - 1) as nat)
    } else {
        DecimalValue { mantissa, scale }
    }
}

/// A decimal weight `mantissa * 10^(-scale)`, kept as it was written.
/// Weights compare and hash by the number they denote, so `1.5` and `1.50`
/// are equal.
#[derive(Debug, Clone, Copy, Eq)]
pub struct Weight {
    mantissa: i128,
    scale: u32,
}

/// Builds the decimal `n` with `rust_decimal::Decimal::from` and reads back its
/// mantissa and scale (`Decimal::mantissa`, `Decimal::scale`). The source
/// builds it with a zero scale and the integer as its low 64 bits, so the
/// parts are `(n, 0)`.
#[verifier::external_body]
fn decimal_parts_from_u64(n: u64) -> (parts: (i128, u32))
    ensures
        parts.0 == n as int,
        parts.1 == 0,
{
    let d = rust_decimal::Decimal::from(n);
    (d.mantissa(), d.scale())
}

/// `Hash::hash` of an `i128`: feeds the integer to the hasher. Nothing is
/// stated of the hasher's state afterwards.
pub assume_specification<H: core::hash::Hasher>[ <i128 as core::hash::Hash>::hash::<H> ](
    value: &i128,
    state: &mut H,
);

impl View for Weight {
    type V = DecimalValue;

    /// The number that the weight denotes.
    closed spec fn view(&self) -> DecimalValue {
        normalize(self.mantissa as int, self.scale as nat)
    }
}

/// Each normalization step keeps the value normalized and within bounds.
proof fn lemma_normalize_step(mantissa: int, scale: nat)
    requires
        scale > 0,
        mantissa % 10 == 0,
    ensures
        normalize(mantissa, scale) == normalize(mantissa / 10, (scale - 1) as nat),
{
}

/// Ten to the power `n`.
pub open spec fn pow10(n: nat) -> int
    decreases n,
{
    if n == 0 {
        1
    } else {
        10 * pow10((n - 1) as nat)
    }
}

/// Powers of ten are positive.
pub proof fn lemma_pow10_positive(n: nat)
    ensures
        pow10(n) > 0,
    decreases n,
{
    if n > 0 {
        lemma_pow10_positive((n - 1) as nat);
    }
}

/// `10^a * 10^b == 10^(a + b)`.
pub proof fn lemma_pow10_add(a: nat, b: nat)
    ensures
        pow10(a) * pow10(b) == pow10(a + b),
    decreases a,
{
    if a > 0 {
        lemma_pow10_add((a - 1) as nat, b);
        let x = pow10((a - 1) as nat);
        let y = pow10(b);
        assert((10 * x) * y == 10 * (x * y)) by (nonlinear_arith);
        assert(((a + b) - 1) as nat == ((a - 1) as nat + b) as nat);
    }
}

/// Normalizing keeps the number and leaves it in canonical form: the
/// normalized scale is at most the written one, the written mantissa is the
/// normalized one shifted back, and the normalized fraction has no trailing
/// zero.
pub proof fn lemma_normalize_keeps_number(mantissa: int, scale: nat)
    ensures
        normalize(mantissa, scale).scale <= scale,
        mantissa == normalize(mantissa, scale).mantissa * pow10(
            (scale - normalize(mantissa, scale).scale) as nat,
        ),
        normalize(mantissa, scale).scale == 0 || normalize(mantissa, scale).mantissa % 10 != 0,
    decreases scale,
{
    if scale > 0 && mantissa % 10 == 0 {
        let smaller = mantissa / 10;
        lemma_normalize_keeps_number(smaller, (scale - 1) as nat);
        let n = normalize(smaller, (scale - 1) as nat);
        let k = ((scale - 1) - n.scale) as nat;
        let p = pow10(k);
        assert(smaller == n.mantissa * p);
        assert(mantissa == 10 * smaller);
        assert(10 * (n.mantissa * p) == n.mantissa * (10 * p)) by (nonlinear_arith);
        assert((scale - n.scale) as nat == k + 1);
        assert(pow10(k + 1) == 10 * p);
    }
}

/// Two decimals normalize alike exactly when they denote the same number:
/// `m1 / 10^s1 == m2 / 10^s2`, that is `m1 * 10^s2 == m2 * 10^s1`.
pub proof fn lemma_same_number(m1: int, s1: nat, m2: int, s2: nat)
    ensures
        normalize(m1, s1) == normalize(m2, s2) <==> m1 * pow10(s2) == m2 * pow10(s1),
{
    let n1 = normalize(m1, s1);
    let n2 = normalize(m2, s2);
    lemma_normalize_keeps_number(m1, s1);
    lemma_normalize_keeps_number(m2, s2);
    let (x1, k1) = (n1.mantissa, n1.scale);
    let (x2, k2) = (n2.mantissa, n2.scale);
    let d1 = (s1 - k1) as nat;
    let d2 = (s2 - k2) as nat;
    let t = (s1 + s2) as nat;
    let e1 = (t - k1) as nat;
    let e2 = (t - k2) as nat;
    // m1 * 10^s2 == x1 * 10^(t - k1), and likewise for m2.
    lemma_pow10_add(d1, s2);
    lemma_pow10_add(d2, s1);
    assert(d1 + s2 == e1);
    assert(d2 + s1 == e2);
    let pd1 = pow10(d1);
    let pd2 = pow10(d2);
    let ps1 = pow10(s1);
    let ps2 = pow10(s2);
    assert(m1 * ps2 == x1 * pow10(e1)) by {
        assert((x1 * pd1) * ps2 == x1 * (pd1 * ps2)) by (nonlinear_arith);
    }
    assert(m2 * ps1 == x2 * pow10(e2)) by {
        assert((x2 * pd2) * ps1 == x2 * (pd2 * ps1)) by (nonlinear_arith);
    }
    if x1 * pow10(e1) == x2 * pow10(e2) {
        if k1 <= k2 {
            lemma_same_number_ordered(x1, k1, x2, k2, e2);
        } else {
            lemma_same_number_ordered(x2, k2, x1, k1, e1);
        }
    }
}

/// The heart of [`lemma_same_number`]: canonical forms that denote the same
/// number (with the smaller scale first) are equal.
proof fn lemma_same_number_ordered(x1: int, k1: nat, x2: int, k2: nat, e: nat)
    requires
        k1 <= k2,
        k1 == 0 || x1 % 10 != 0,
        k2 == 0 || x2 % 10 != 0,
        x1 * pow10((e + (k2 - k1)) as nat) == x2 * pow10(e),
    ensures
        x1 == x2 && k1 == k2,
{
    let g = (k2 - k1) as nat;
    lemma_pow10_add(e, g);
    lemma_pow10_positive(e);
    let pe = pow10(e);
    let pg = pow10(g);
    assert(x1 * (pe * pg) == (x1 * pg) * pe) by (nonlinear_arith);
    assert((x1 * pg) * pe == x2 * pe);
    assert(x1 * pg == x2) by (nonlinear_arith)
        requires
            (x1 * pg) * pe == x2 * pe,
            pe > 0,
    ;
    if g > 0 {
        let q = pow10((g - 1) as nat);
        assert(pg == 10 * q);
        assert(x2 == 10 * (x1 * q)) by (nonlinear_arith)
            requires
                x2 == x1 * pg,
                pg == 10 * q,
        ;
        assert(x2 % 10 == 0) by (nonlinear_arith)
            requires
                x2 == 10 * (x1 * q),
        ;
    }
}

impl Weight {
    #[verifier::type_invariant]
    spec fn inv(self) -> bool {
        is_decimal(self.mantissa as int, self.scale as int)
    }

    pub closed spec fn spec_mantissa(self) -> int {
        self.mantissa as int
    }

    pub closed spec fn spec_scale(self) -> int {
        self.scale as int
    }

    /// A weight denotes the normalized form of its written parts.
    pub proof fn lemma_view(w: Weight)
        ensures
            w@ == normalize(w.spec_mantissa(), w.spec_scale() as nat),
            w.spec_scale() >= 0,
    {
    }

    /// Two weights are equal (`==`) exactly when they denote the same number:
    /// `m1 / 10^s1 == m2 / 10^s2`.
    pub proof fn lemma_equal_iff_same_number(a: Weight, b: Weight)
        ensures
            a@ == b@ <==> a.spec_mantissa() * pow10(b.spec_scale() as nat) == b.spec_mantissa()
                * pow10(a.spec_scale() as nat),
    {
        lemma_same_number(a.mantissa as int, a.scale as nat, b.mantissa as int, b.scale as nat);
    }

    /// Every decimal with a mantissa of at most 96 bits and a scale of at
    /// most 28 is a weight: nothing else narrows what a weight can be.
    pub proof fn lemma_every_decimal_is_a_weight(mantissa: int, scale: int)
        requires
            -0x1_0000_0000_0000_0000_0000_0000 < mantissa < 0x1_0000_0000_0000_0000_0000_0000,
            0 <= scale <= 28,
        ensures
            is_decimal(mantissa, scale),
    {
    }

    /// A weight is determined by its written mantissa and scale.
    pub proof fn lemma_parts_determine_weight(a: Weight, b: Weight)
        requires
            a.spec_mantissa() == b.spec_mantissa(),
            a.spec_scale() == b.spec_scale(),
        ensures
            a == b,
    {
    }

    /// The whole number `n` as a weight.
    pub closed spec fn spec_from_u64(n: u64) -> Weight {
        Weight { mantissa: n as i128, scale: 0 }
    }

    /// The whole number `n` as a weight.
    pub fn from_u64(n: u64) -> (w: Weight)
        ensures
            w == Weight::spec_from_u64(n),
            w.spec_mantissa() == n as int,
            w.spec_scale() == 0,
            w@ == (DecimalValue { mantissa: n as int, scale: 0 }),
    {
        let (mantissa, scale) = decimal_parts_from_u64(n);
        Weight { mantissa, scale }
    }

    /// The weight `mantissa * 10^(-scale)` as written, or `None` where the
    /// pair is not a decimal.
    pub fn from_parts(mantissa: i128, scale: u32) -> (w: Option<Weight>)
        ensures
            w is Some <==> is_decimal(mantissa as int, scale as int),
            w is Some <==> (-0x1_0000_0000_0000_0000_0000_0000 < mantissa < 0x1_0000_0000_0000_0000_0000_0000
                && scale <= 28),
            w matches Some(w) ==> w.spec_mantissa() == mantissa && w.spec_scale() == scale,
    {
        let bound: i128 = 0x1_0000_0000_0000_0000_0000_0000;
        if mantissa <= -bound || mantissa >= bound || scale > 28 {
            None
        } else {
            Some(Weight { mantissa, scale })
        }
    }

    /// The written mantissa.
    pub fn mantissa(&self) -> (m: i128)
        ensures
            m == self.spec_mantissa(),
            is_decimal(self.spec_mantissa(), self.spec_scale()),
    {
        proof {
            use_type_invariant(self);
        }
        self.mantissa
    }

    /// The written scale.
    pub fn scale(&self) -> (s: u32)
        ensures
            s == self.spec_scale(),
            is_decimal(self.spec_mantissa(), self.spec_scale()),
    {
        proof {
            use_type_invariant(self);
        }
        self.scale
    }

    /// The number the weight denotes, as a normalized mantissa and scale.
    pub fn normalized(&self) -> (parts: (i128, u32))
        ensures
            self@ == (DecimalValue { mantissa: parts.0 as int, scale: parts.1 as nat }),
            is_decimal(parts.0 as int, parts.1 as int),
            parts.0 * pow10(self.spec_scale() as nat) == self.spec_mantissa() * pow10(
                parts.1 as nat,
            ),
            parts.1 <= self.spec_scale(),
            parts.1 == 0 || parts.0 % 10 != 0,
    {
        proof {
            use_type_invariant(self);
        }
        let mut m: i128 = self.mantissa;
        let mut s: u32 = self.scale;
        while s > 0 && m % 10 == 0
            invariant
                normalize(m as int, s as nat) == normalize(self.mantissa as int, self.scale as nat),
                is_decimal(m as int, s as int),
            decreases s,
        {
            proof {
                lemma_normalize_step(m as int, s as nat);
            }
            m = m / 10;
            s = s - 1;
        }
        proof {
            let w = self.spec_mantissa();
            let ws = self.spec_scale() as nat;
            lemma_normalize_keeps_number(w, ws);
            lemma_same_number(w, ws, m as int, s as nat);
            assert(normalize(m as int, s as nat) == DecimalValue { mantissa: m as int, scale: s as nat });
            assert(normalize(m as int, s as nat) == normalize(m as int, s as nat));
            lemma_normalize_keeps_number(m as int, s as nat);
        }
        (m, s)
    }
}

impl PartialEq for Weight {
    fn eq(&self, other: &Self) -> (same: bool) {
        let a = self.normalized();
        let b = other.normalized();
        a.0 == b.0 && a.1 == b.1
    }
}

impl PartialEqSpecImpl for Weight {
    open spec fn obeys_eq_spec() -> bool {
        true
    }

    open spec fn eq_spec(&self, other: &Weight) -> bool {
        self@ == other@
    }
}

impl Weight {
    /// The integer that stands for the number the weight denotes in hashing:
    /// the normalized mantissa times 32 plus the normalized scale. Equal
    /// weights have equal keys, and distinct numbers distinct keys.
    pub fn hash_key(&self) -> (key: i128)
        ensures
            key == self@.mantissa * 32 + self@.scale,
    {
        let (m, s) = self.normalized();
        m * 32 + s as i128
    }

    /// Weights have equal hash keys exactly when they are equal.
    pub proof fn lemma_hash_key_injective(a: DecimalValue, b: DecimalValue)
        requires
            0 <= a.scale < 32,
            0 <= b.scale < 32,
        ensures
            a.mantissa * 32 + a.scale == b.mantissa * 32 + b.scale <==> a == b,
    {
    }
}

impl core::hash::Hash for Weight {
    /// Hashes the number the weight denotes (its hash key), so that equal
    /// weights hash alike.
    fn hash<H: core::hash::Hasher>(&self, state: &mut H) {
        let key = self.hash_key();
        key.hash(state);
    }
}

} // verus!
