use vstd::prelude::*;
use vstd::std_specs::cmp::PartialEqSpecImpl;

verus! {

/// Ten to the power `n`.
pub open spec fn pow10(n: nat) -> nat
    decreases n,
{
    if n == 0 {
        1
    } else {
        10 * pow10((n - 1) as nat)
    }
}

/// A decimal number as a sign, a whole number and a scale: the amount is
/// the whole number divided by ten to the power of the scale, negated where
/// the sign says so.
pub struct PriceView {
    pub negative: bool,
    pub mantissa: nat,
    pub scale: nat,
}

/// Whether a decimal is written in the one way that the library keeps: zero
/// as a plain positive zero, and any other amount with no zero at the end
/// of its fraction.
pub open spec fn is_canonical(p: PriceView) -> bool {
    &&& p.mantissa == 0 ==> !p.negative && p.scale == 0
    &&& p.scale > 0 ==> p.mantissa % 10 != 0
}

/// The canonical way to write the amount of a decimal: the zeros at the end
/// of its fraction are taken off one by one.
pub open spec fn canonical(p: PriceView) -> PriceView
    decreases p.scale,
{
    if p.mantissa == 0 {
        PriceView { negative: false, mantissa: 0, scale: 0 }
    } else if p.scale > 0 && p.mantissa % 10 == 0 {
        canonical(
            PriceView {
                negative: p.negative,
                mantissa: p.mantissa / 10,
                scale: (p.scale - 1) as nat,
            },
        )
    } else {
        p
    }
}

/// The price of an item: an exact decimal amount. Equal amounts are equal
/// prices, however many zeros they were written with.
#[derive(Debug, Clone, Copy, Eq)]
pub struct ItemPrice {
    negative: bool,
    mantissa: u128,
    scale: u32,
}

impl View for ItemPrice {
    type V = PriceView;

    closed spec fn view(&self) -> PriceView {
        PriceView {
            negative: self.negative,
            mantissa: self.mantissa as nat,
            scale: self.scale as nat,
        }
    }
}

impl ItemPrice {
    #[verifier::type_invariant]
    spec fn kept_canonical(self) -> bool {
        is_canonical(self@)
    }

    /// The price with the amount `mantissa` divided by ten to the power
    /// `scale`, negated where `negative` holds.
    pub fn new(negative: bool, mantissa: u128, scale: u32) -> (price: Self)
        ensures
            price@ == canonical(
                PriceView { negative, mantissa: mantissa as nat, scale: scale as nat },
            ),
            is_canonical(price@),
    {
        if mantissa == 0 {
            return Self { negative: false, mantissa: 0, scale: 0 };
        }
        let mut digits: u128 = mantissa;
        let mut places: u32 = scale;
        while places > 0 && digits % 10 == 0
            invariant
                digits > 0,
                canonical(
                    PriceView { negative, mantissa: digits as nat, scale: places as nat },
                ) == canonical(
                    PriceView { negative, mantissa: mantissa as nat, scale: scale as nat },
                ),
            decreases places,
        {
            digits = digits / 10;
            places = places - 1;
        }
        Self { negative, mantissa: digits, scale: places }
    }

    /// Whether the amount is below zero.
    pub fn is_negative(&self) -> (negative: bool)
        ensures
            negative == self@.negative,
    {
        self.negative
    }

    /// The digits of the amount as a whole number.
    pub fn mantissa(&self) -> (mantissa: u128)
        ensures
            mantissa == self@.mantissa,
    {
        self.mantissa
    }

    /// How many of the digits stand behind the decimal point.
    pub fn scale(&self) -> (scale: u32)
        ensures
            scale == self@.scale,
    {
        self.scale
    }
}

impl PartialEq for ItemPrice {
    fn eq(&self, other: &Self) -> (b: bool) {
        self.negative == other.negative && self.mantissa == other.mantissa && self.scale
            == other.scale
    }
}

impl PartialEqSpecImpl for ItemPrice {
    open spec fn obeys_eq_spec() -> bool {
        true
    }

    open spec fn eq_spec(&self, other: &Self) -> bool {
        self@ == other@
    }
}

/// Writing a decimal canonically keeps its sign, unless it is zero, and
/// keeps its amount: the two whole numbers agree once each is brought to
/// the scale of the other. What comes out is canonical.
pub proof fn lemma_canonical_keeps_amount(p: PriceView)
    ensures
        is_canonical(canonical(p)),
        canonical(p).scale <= p.scale,
        canonical(p).mantissa * pow10((p.scale - canonical(p).scale) as nat) == p.mantissa,
        p.mantissa != 0 ==> canonical(p).negative == p.negative,
    decreases p.scale,
{
    if p.mantissa != 0 && p.scale > 0 && p.mantissa % 10 == 0 {
        let shorter = PriceView {
            negative: p.negative,
            mantissa: p.mantissa / 10,
            scale: (p.scale - 1) as nat,
        };
        lemma_canonical_keeps_amount(shorter);
        let c = canonical(p);
        assert(c == canonical(shorter));
        let gap = (shorter.scale - c.scale) as nat;
        assert(pow10(gap + 1) == 10 * pow10(gap));
        assert(c.mantissa * pow10(gap + 1) == 10 * (c.mantissa * pow10(gap))) by (nonlinear_arith)
            requires
                pow10(gap + 1) == 10 * pow10(gap),
        ;
        assert(10 * (p.mantissa / 10) == p.mantissa);
        assert((p.scale - c.scale) as nat == gap + 1);
        assert(c.mantissa * pow10((p.scale - c.scale) as nat) == p.mantissa);
    } else if p.mantissa == 0 {
        assert(0 * pow10(p.scale) == 0) by (nonlinear_arith);
    } else {
        assert(pow10(0) == 1);
        assert(p.mantissa * 1 == p.mantissa);
    }
}

/// Ten to any power is above zero.
pub proof fn lemma_pow10_positive(n: nat)
    ensures
        pow10(n) > 0,
    decreases n,
{
    if n > 0 {
        lemma_pow10_positive((n - 1) as nat);
    }
}

/// Ten to a sum of powers is the product of the two powers of ten.
pub proof fn lemma_pow10_sum(a: nat, b: nat)
    ensures
        pow10(a + b) == pow10(a) * pow10(b),
    decreases a,
{
    if a == 0 {
        assert(pow10(0) == 1);
        assert(1 * pow10(b) == pow10(b));
    } else {
        let less = (a - 1) as nat;
        lemma_pow10_sum(less, b);
        assert(pow10(a + b) == 10 * pow10(less + b));
        assert(pow10(a) == 10 * pow10(less));
        assert(10 * (pow10(less) * pow10(b)) == (10 * pow10(less)) * pow10(b))
            by (nonlinear_arith);
    }
}

/// A canonical decimal is the only one of its sign and amount: of two
/// canonical decimals with one sign that agree once each whole number is
/// brought to the scale of the other, neither differs from the other.
pub proof fn lemma_canonical_is_unique(a: PriceView, b: PriceView)
    requires
        is_canonical(a),
        is_canonical(b),
        a.negative == b.negative,
        a.mantissa * pow10(b.scale) == b.mantissa * pow10(a.scale),
    ensures
        a == b,
{
    lemma_pow10_positive(a.scale);
    lemma_pow10_positive(b.scale);
    if a.scale == b.scale {
        let unit = pow10(a.scale);
        assert(a.mantissa == b.mantissa) by (nonlinear_arith)
            requires
                a.mantissa * unit == b.mantissa * unit,
                unit > 0,
        ;
    } else if a.scale < b.scale {
        lemma_longer_fraction_ends_in_zero(a, b);
    } else {
        lemma_longer_fraction_ends_in_zero(b, a);
    }
}

/// Of two decimals with one amount, the one with the longer fraction ends
/// in a zero.
proof fn lemma_longer_fraction_ends_in_zero(short: PriceView, long: PriceView)
    requires
        short.scale < long.scale,
        short.mantissa * pow10(long.scale) == long.mantissa * pow10(short.scale),
    ensures
        long.mantissa % 10 == 0,
{
    let unit = pow10(short.scale);
    let gap = (long.scale - short.scale) as nat;
    let rest = pow10((gap - 1) as nat);
    lemma_pow10_positive(short.scale);
    lemma_pow10_sum(short.scale, gap);
    assert(pow10(long.scale) == unit * pow10(gap));
    assert(pow10(gap) == 10 * rest);
    assert(long.mantissa == 10 * (short.mantissa * rest)) by (nonlinear_arith)
        requires
            short.mantissa * (unit * (10 * rest)) == long.mantissa * unit,
            unit > 0,
    ;
}

/// Equal amounts are equal prices. Two decimals of one sign that agree once
/// each whole number is brought to the scale of the other are written
/// canonically in one way, and so are two zeros, whatever their signs.
pub proof fn lemma_same_amount_same_canonical(p: PriceView, q: PriceView)
    requires
        p.negative == q.negative || p.mantissa == 0,
        p.mantissa * pow10(q.scale) == q.mantissa * pow10(p.scale),
    ensures
        canonical(p) == canonical(q),
{
    lemma_pow10_positive(p.scale);
    lemma_pow10_positive(q.scale);
    if p.mantissa == 0 {
        let unit = pow10(p.scale);
        assert(q.mantissa == 0) by (nonlinear_arith)
            requires
                q.mantissa * unit == 0 * pow10(q.scale),
                unit > 0,
        ;
    } else {
        let unit = pow10(q.scale);
        assert(q.mantissa != 0) by (nonlinear_arith)
            requires
                p.mantissa * unit == q.mantissa * pow10(p.scale),
                unit > 0,
                p.mantissa > 0,
        ;
        let a = canonical(p);
        let b = canonical(q);
        lemma_canonical_keeps_amount(p);
        lemma_canonical_keeps_amount(q);
        let cut_p = (p.scale - a.scale) as nat;
        let cut_q = (q.scale - b.scale) as nat;
        lemma_pow10_sum(b.scale, cut_q);
        lemma_pow10_sum(a.scale, cut_p);
        lemma_pow10_positive(cut_p);
        lemma_pow10_positive(cut_q);
        let (am, bm) = (a.mantissa, b.mantissa);
        let (pa, pb) = (pow10(a.scale), pow10(b.scale));
        let (cp, cq) = (pow10(cut_p), pow10(cut_q));
        assert(pow10(q.scale) == pb * cq);
        assert(pow10(p.scale) == pa * cp);
        assert(am * pb == bm * pa) by (nonlinear_arith)
            requires
                (am * cp) * (pb * cq) == (bm * cq) * (pa * cp),
                cp > 0,
                cq > 0,
        ;
        lemma_canonical_is_unique(a, b);
    }
}

} // verus!
