//! Numbers of the filter language: exact decimals of any length.
use vstd::prelude::*;
use super::lexer::{is_digit, run_end, CharClass};
use crate::text::{chars_of, digit_char, push_char};

verus! {

/// How one value stands to another.
#[derive(Clone, Copy, Debug, PartialEq, Eq, Structural)]
pub enum Order {
    Less,
    Equal,
    Greater,
}

/// Ten to the power `n`.
pub open spec fn pow10(n: nat) -> nat
    decreases n,
{
    if n == 0 {
        1
    } else {
        10 * pow10((n - 1) as nat)
    }
}

/// The number that the decimal digits `d` write, the first digit weighing
/// most.
pub open spec fn digits_value(d: Seq<u8>) -> nat
    decreases d.len(),
{
    if d.len() == 0 {
        0
    } else {
        digits_value(d.drop_last()) * 10 + d.last() as nat
    }
}

/// Whether every element is a decimal digit.
pub open spec fn all_digits(d: Seq<u8>) -> bool {
    forall|i: int| 0 <= i < d.len() ==> d[i] <= 9
}

/// `k` zeros.
pub open spec fn zeros(k: nat) -> Seq<u8> {
    Seq::new(k, |i: int| 0u8)
}

/// The value of a decimal digit character.
pub open spec fn digit_value(c: char) -> u8 {
    if c == '0' {
        0
    } else if c == '1' {
        1
    } else if c == '2' {
        2
    } else if c == '3' {
        3
    } else if c == '4' {
        4
    } else if c == '5' {
        5
    } else if c == '6' {
        6
    } else if c == '7' {
        7
    } else if c == '8' {
        8
    } else {
        9
    }
}

/// The values of the digit characters of `s`.
pub open spec fn digit_values(s: Seq<char>) -> Seq<u8> {
    s.map_values(|c: char| digit_value(c))
}

/// A number as a mathematical object: `mantissa / 10^scale`.
pub struct NumberView {
    pub mantissa: int,
    pub scale: nat,
}

impl NumberView {
    /// Whether this number is smaller than `other`.
    pub open spec fn lt(self, other: NumberView) -> bool {
        self.mantissa * pow10(other.scale) < other.mantissa * pow10(self.scale)
    }

    /// Whether this number and `other` are the same number.
    pub open spec fn same(self, other: NumberView) -> bool {
        self.mantissa * pow10(other.scale) == other.mantissa * pow10(self.scale)
    }

    /// How this number stands to `other`.
    pub open spec fn order(self, other: NumberView) -> Order {
        if self.lt(other) {
            Order::Less
        } else if self.same(other) {
            Order::Equal
        } else {
            Order::Greater
        }
    }
}

/// Whether `s` is a decimal number as the filter language writes it: digits,
/// and after them, if anything, a dot and digits.
pub open spec fn is_decimal(s: Seq<char>) -> bool {
    let i = run_end(s, 0, CharClass::Digit);
    i > 0 && (i == s.len() || (s[i] == '.' && i + 1 < s.len() && run_end(s, i + 1, CharClass::Digit)
        == s.len()))
}

/// The number that the decimal text `s` writes.
pub open spec fn decimal_value(s: Seq<char>) -> NumberView {
    let i = run_end(s, 0, CharClass::Digit);
    if i == s.len() {
        NumberView { mantissa: digits_value(digit_values(s)) as int, scale: 0 }
    } else {
        NumberView {
            mantissa: digits_value(digit_values(s.subrange(0, i) + s.subrange(i + 1, s.len() as int)))
                as int,
            scale: (s.len() - i - 1) as nat,
        }
    }
}

pub proof fn lemma_pow10_positive(n: nat)
    ensures
        pow10(n) > 0,
    decreases n,
{
    if n > 0 {
        lemma_pow10_positive((n - 1) as nat);
    }
}

pub proof fn lemma_pow10_monotone(a: nat, b: nat)
    requires
        a <= b,
    ensures
        pow10(a) <= pow10(b),
    decreases b,
{
    if a < b {
        lemma_pow10_monotone(a, (b - 1) as nat);
        lemma_pow10_positive((b - 1) as nat);
    }
}

/// Of two numbers, exactly one of three holds: the first is smaller, they
/// are the same, or the second is smaller.
pub proof fn law_order_is_total(a: NumberView, b: NumberView)
    ensures
        a.lt(b) || a.same(b) || b.lt(a),
        !(a.lt(b) && a.same(b)),
        !(a.lt(b) && b.lt(a)),
        !(a.same(b) && b.lt(a)),
        a.same(b) == b.same(a),
        a.same(a),
{
}

/// The order of numbers is transitive, and goes by value: numbers that are
/// the same stand alike to any third.
pub proof fn law_order_is_transitive(a: NumberView, b: NumberView, c: NumberView)
    ensures
        a.lt(b) && b.lt(c) ==> a.lt(c),
        a.same(b) && b.same(c) ==> a.same(c),
        a.same(b) ==> (a.lt(c) == b.lt(c)) && (c.lt(a) == c.lt(b)),
{
    lemma_pow10_positive(a.scale);
    lemma_pow10_positive(b.scale);
    lemma_pow10_positive(c.scale);
    let (x, y, z) = (a.mantissa, b.mantissa, c.mantissa);
    let (p, q, r) = (pow10(a.scale) as int, pow10(b.scale) as int, pow10(c.scale) as int);
    assert(x * q < y * p && y * r < z * q ==> x * r < z * p) by (nonlinear_arith)
        requires
            p > 0,
            q > 0,
            r > 0,
    {
        if x * q < y * p && y * r < z * q {
            assert(x * q * r < y * p * r);
            assert(y * r * p < z * q * p);
            assert(x * r * q < z * p * q);
        }
    }
    assert(x * q == y * p && y * r == z * q ==> x * r == z * p) by (nonlinear_arith)
        requires
            p > 0,
            q > 0,
            r > 0,
    {
        if x * q == y * p && y * r == z * q {
            assert(x * q * r == y * p * r);
            assert(y * r * p == z * q * p);
            assert(x * r * q == z * p * q);
        }
    }
    assert(x * q == y * p ==> ((x * r < z * p) == (y * r < z * q))) by (nonlinear_arith)
        requires
            p > 0,
            q > 0,
            r > 0,
    {
        if x * q == y * p {
            assert(x * r * q == y * r * p);
            assert((x * r < z * p) == (x * r * q < z * p * q));
            assert((y * r < z * q) == (y * r * p < z * q * p));
        }
    }
    assert(x * q == y * p ==> ((z * p < x * r) == (z * q < y * r))) by (nonlinear_arith)
        requires
            p > 0,
            q > 0,
            r > 0,
    {
        if x * q == y * p {
            assert(x * r * q == y * r * p);
            assert((z * p < x * r) == (z * p * q < x * r * q));
            assert((z * q < y * r) == (z * q * p < y * r * p));
        }
    }
}

/// A numeral of `n` digits is below `10^n`, and not below `10^(n-1)` where it
/// starts with a digit other than zero.
pub proof fn lemma_value_bounds(d: Seq<u8>)
    requires
        all_digits(d),
    ensures
        digits_value(d) < pow10(d.len()),
        d.len() > 0 && d[0] > 0 ==> digits_value(d) >= pow10((d.len() - 1) as nat),
    decreases d.len(),
{
    if d.len() > 0 {
        let dl = d.drop_last();
        assert(all_digits(dl));
        lemma_value_bounds(dl);
        if d.len() > 1 {
            assert(dl[0] == d[0]);
        }
    }
}

/// Zeros behind a numeral multiply it by a power of ten.
pub proof fn lemma_padded_value(d: Seq<u8>, k: nat)
    ensures
        digits_value(d + zeros(k)) == digits_value(d) * pow10(k),
    decreases k,
{
    if k == 0 {
        assert(d + zeros(0) =~= d);
        assert(pow10(0) == 1);
        assert(digits_value(d) * 1 == digits_value(d)) by (nonlinear_arith);
    } else {
        let km = (k - 1) as nat;
        lemma_padded_value(d, km);
        assert((d + zeros(k)).drop_last() =~= d + zeros(km));
        assert((d + zeros(k)).last() == 0);
        let v = digits_value(d);
        let p = pow10(km);
        assert(digits_value(d + zeros(k)) == digits_value(d + zeros(km)) * 10);
        assert(pow10(k) == 10 * p);
        assert(v * p * 10 == v * (10 * p)) by (nonlinear_arith);
        assert(digits_value(d + zeros(k)) == v * pow10(k));
    }
}

/// Zeros in front of a numeral do not change it.
pub proof fn lemma_leading_zeros(d: Seq<u8>, z: int)
    requires
        0 <= z <= d.len(),
        forall|i: int| 0 <= i < z ==> d[i] == 0,
    ensures
        digits_value(d.skip(z)) == digits_value(d),
    decreases d.len(),
{
    if d.len() == 0 {
        assert(d.skip(z) =~= d);
    } else if z == d.len() {
        let dl = d.drop_last();
        lemma_leading_zeros(dl, z - 1);
        assert(dl.skip(z - 1) =~= Seq::<u8>::empty());
        assert(d.skip(z) =~= Seq::<u8>::empty());
    } else {
        let dl = d.drop_last();
        lemma_leading_zeros(dl, z);
        assert(d.skip(z).drop_last() =~= dl.skip(z));
        assert(d.skip(z).last() == d.last());
    }
}

/// Of two numerals of one length, the one with the smaller digit at the
/// first place where they differ writes the smaller number.
pub proof fn lemma_first_difference(x: Seq<u8>, y: Seq<u8>, i: int)
    requires
        x.len() == y.len(),
        all_digits(x),
        all_digits(y),
        0 <= i < x.len(),
        forall|j: int| 0 <= j < i ==> x[j] == y[j],
        x[i] < y[i],
    ensures
        digits_value(x) < digits_value(y),
    decreases x.len(),
{
    let xl = x.drop_last();
    let yl = y.drop_last();
    if i == x.len() - 1 {
        assert(xl =~= yl);
    } else {
        assert(all_digits(xl));
        assert(all_digits(yl));
        lemma_first_difference(xl, yl, i);
    }
}

/// The characters of the digits `d`.
pub open spec fn digits_text(d: Seq<u8>) -> Seq<char> {
    d.map_values(|digit: u8| digit_char(digit as int))
}

/// How many zeros stand at the start of `d`.
pub open spec fn zeros_in_front(d: Seq<u8>) -> int
    decreases d.len(),
{
    if d.len() > 0 && d[0] == 0 {
        1 + zeros_in_front(d.skip(1))
    } else {
        0
    }
}

/// How many zeros stand at the end of `d`.
pub open spec fn zeros_behind(d: Seq<u8>) -> int
    decreases d.len(),
{
    if d.len() > 0 && d.last() == 0 {
        1 + zeros_behind(d.drop_last())
    } else {
        0
    }
}

/// How the number with the digits `digits`, of which the last `scale` stand
/// behind the decimal point, is written: without zeros in front of the
/// whole part (but `0` for none) or at the end of the fraction, without a
/// point where no fraction is left, and with `-` in front where it is
/// negative.
pub open spec fn number_text(negative: bool, digits: Seq<u8>, scale: int) -> Seq<char> {
    let whole = digits.take(digits.len() - scale);
    let fraction = digits.skip(digits.len() - scale);
    let w = whole.skip(zeros_in_front(whole));
    let f = fraction.take(fraction.len() - zeros_behind(fraction));
    (if negative {
        seq!['-']
    } else {
        Seq::empty()
    }) + (if w.len() == 0 {
        seq!['0']
    } else {
        digits_text(w)
    }) + (if f.len() == 0 {
        Seq::empty()
    } else {
        seq!['.'] + digits_text(f)
    })
}

proof fn lemma_zeros_in_front(d: Seq<u8>, z: int)
    requires
        0 <= z <= d.len(),
        forall|i: int| 0 <= i < z ==> d[i] == 0,
        z < d.len() ==> d[z] != 0,
    ensures
        zeros_in_front(d) == z,
    decreases z,
{
    if z > 0 {
        lemma_zeros_in_front(d.skip(1), z - 1);
    }
}

proof fn lemma_zeros_behind(d: Seq<u8>, t: int)
    requires
        0 <= t <= d.len(),
        forall|i: int| t <= i < d.len() ==> d[i] == 0,
        t > 0 ==> d[t - 1] != 0,
    ensures
        zeros_behind(d) == d.len() - t,
    decreases d.len() - t,
{
    if t < d.len() {
        lemma_zeros_behind(d.drop_last(), t);
    }
}

fn digit_to_char(d: u8) -> (c: char)
    requires
        d <= 9,
    ensures
        c == digit_char(d as int),
{
    if d == 0 {
        '0'
    } else if d == 1 {
        '1'
    } else if d == 2 {
        '2'
    } else if d == 3 {
        '3'
    } else if d == 4 {
        '4'
    } else if d == 5 {
        '5'
    } else if d == 6 {
        '6'
    } else if d == 7 {
        '7'
    } else if d == 8 {
        '8'
    } else {
        '9'
    }
}

/// Appends the characters of `d[from..to]` to `out`.
fn push_digits(out: &mut String, d: &Vec<u8>, from: usize, to: usize)
    requires
        from <= to <= d@.len(),
        all_digits(d@),
    ensures
        final(out)@ == old(out)@ + digits_text(d@.subrange(from as int, to as int)),
{
    let mut i = from;
    proof {
        assert(old(out)@ + digits_text(d@.subrange(from as int, from as int)) =~= old(out)@);
    }
    while i < to
        invariant
            from <= i <= to <= d@.len(),
            all_digits(d@),
            out@ == old(out)@ + digits_text(d@.subrange(from as int, i as int)),
        decreases to - i,
    {
        push_char(out, digit_to_char(d[i]));
        proof {
            assert(digits_text(d@.subrange(from as int, i as int)).push(digit_char(d@[i as int] as int))
                =~= digits_text(d@.subrange(from as int, i as int + 1)));
            assert((old(out)@ + digits_text(d@.subrange(from as int, i as int))).push(
                digit_char(d@[i as int] as int),
            ) =~= old(out)@ + digits_text(d@.subrange(from as int, i as int + 1)));
        }
        i += 1;
    }
}

/// A decimal number of the filter language.
///
/// The number is held exactly, as its decimal digits and the count of those
/// that stand behind the decimal point; equality and order go by its value,
/// so that `1.50` and `1.5` are one number.
#[derive(Debug)]
pub struct Number {
    negative: bool,
    digits: Vec<u8>,
    scale: usize,
}

impl View for Number {
    type V = NumberView;

    closed spec fn view(&self) -> NumberView {
        NumberView {
            mantissa: if self.negative {
                -(digits_value(self.digits@) as int)
            } else {
                digits_value(self.digits@) as int
            },
            scale: self.scale as nat,
        }
    }
}

impl Clone for Number {
    fn clone(&self) -> (out: Number)
        ensures
            out@ == self@,
    {
        proof {
            use_type_invariant(self);
        }
        let digits = self.digits.clone();
        proof {
            assert(digits@ =~= self.digits@);
        }
        Number { negative: self.negative, digits, scale: self.scale }
    }
}

/// The first index at or after which `d` holds a digit other than zero.
fn leading_zeros(d: &Vec<u8>) -> (z: usize)
    ensures
        z <= d@.len(),
        forall|i: int| 0 <= i < z ==> d@[i] == 0,
        z < d@.len() ==> d@[z as int] != 0,
{
    let mut z: usize = 0;
    while z < d.len() && d[z] == 0
        invariant
            z <= d@.len(),
            forall|i: int| 0 <= i < z ==> d@[i] == 0,
        decreases d@.len() - z,
    {
        z += 1;
    }
    z
}

/// The digit at place `i` of the numeral `d[z..]` followed by zeros.
fn padded_digit(d: &Vec<u8>, z: usize, i: u128) -> (digit: u8)
    requires
        z <= d@.len(),
    ensures
        digit == if i < d@.len() - z {
            d@[z + i]
        } else {
            0u8
        },
{
    if i < (d.len() - z) as u128 {
        d[z + i as usize]
    } else {
        0
    }
}

/// Compares `a * 10^sb` with `b * 10^sa`, where `a` and `b` are the numbers
/// that the digits write.
fn compare_scaled(a: &Vec<u8>, sa: usize, b: &Vec<u8>, sb: usize) -> (order: Order)
    requires
        all_digits(a@),
        all_digits(b@),
    ensures
        order == Order::Less <==> digits_value(a@) * pow10(sb as nat) < digits_value(b@) * pow10(
            sa as nat,
        ),
        order == Order::Equal <==> digits_value(a@) * pow10(sb as nat) == digits_value(b@) * pow10(
            sa as nat,
        ),
{
    let za = leading_zeros(a);
    let zb = leading_zeros(b);
    let ghost x = a@.skip(za as int) + zeros(sb as nat);
    let ghost y = b@.skip(zb as int) + zeros(sa as nat);
    proof {
        lemma_leading_zeros(a@, za as int);
        lemma_leading_zeros(b@, zb as int);
        lemma_padded_value(a@.skip(za as int), sb as nat);
        lemma_padded_value(b@.skip(zb as int), sa as nat);
        assert(all_digits(x));
        assert(all_digits(y));
        lemma_value_bounds(x);
        lemma_value_bounds(y);
        lemma_value_bounds(a@.skip(za as int));
        lemma_value_bounds(b@.skip(zb as int));
        lemma_pow10_positive(sa as nat);
        lemma_pow10_positive(sb as nat);
    }
    let a_zero = za == a.len();
    let b_zero = zb == b.len();
    if a_zero || b_zero {
        proof {
            let va = digits_value(a@);
            let vb = digits_value(b@);
            let pa = pow10(sa as nat);
            let pb = pow10(sb as nat);
            if a_zero {
                assert(a@.skip(za as int) =~= Seq::<u8>::empty());
                assert(va * pb == 0) by (nonlinear_arith)
                    requires
                        va == 0,
                ;
            } else {
                lemma_pow10_positive((a@.len() - za - 1) as nat);
                assert(va * pb > 0) by (nonlinear_arith)
                    requires
                        va > 0,
                        pb > 0,
                ;
            }
            if b_zero {
                assert(b@.skip(zb as int) =~= Seq::<u8>::empty());
                assert(vb * pa == 0) by (nonlinear_arith)
                    requires
                        vb == 0,
                ;
            } else {
                lemma_pow10_positive((b@.len() - zb - 1) as nat);
                assert(vb * pa > 0) by (nonlinear_arith)
                    requires
                        vb > 0,
                        pa > 0,
                ;
            }
        }
        return if a_zero && b_zero {
            Order::Equal
        } else if a_zero {
            Order::Less
        } else {
            Order::Greater
        };
    }
    let ea: u128 = (a.len() - za) as u128 + sb as u128;
    let eb: u128 = (b.len() - zb) as u128 + sa as u128;
    proof {
        assert(x.len() == ea);
        assert(y.len() == eb);
        assert(x[0] == a@[za as int]);
        assert(y[0] == b@[zb as int]);
    }
    if ea < eb {
        proof {
            lemma_pow10_monotone(ea as nat, (eb - 1) as nat);
        }
        return Order::Less;
    }
    if ea > eb {
        proof {
            lemma_pow10_monotone(eb as nat, (ea - 1) as nat);
        }
        return Order::Greater;
    }
    let mut i: u128 = 0;
    while i < ea
        invariant
            za <= a@.len(),
            zb <= b@.len(),
            ea == eb,
            i <= ea,
            x.len() == ea,
            y.len() == eb,
            x == a@.skip(za as int) + zeros(sb as nat),
            y == b@.skip(zb as int) + zeros(sa as nat),
            all_digits(x),
            all_digits(y),
            digits_value(x) == digits_value(a@) * pow10(sb as nat),
            digits_value(y) == digits_value(b@) * pow10(sa as nat),
            forall|j: int| 0 <= j < i ==> x[j] == y[j],
        decreases ea - i,
    {
        let da = padded_digit(a, za, i);
        let db = padded_digit(b, zb, i);
        proof {
            assert(da == x[i as int]);
            assert(db == y[i as int]);
        }
        if da < db {
            proof {
                lemma_first_difference(x, y, i as int);
            }
            return Order::Less;
        }
        if da > db {
            proof {
                lemma_first_difference(y, x, i as int);
            }
            return Order::Greater;
        }
        i += 1;
    }
    proof {
        assert(x =~= y);
    }
    Order::Equal
}

/// The digits of `n`.
fn digits_of(n: u64) -> (d: Vec<u8>)
    ensures
        all_digits(d@),
        digits_value(d@) == n,
    decreases n,
{
    let mut d = if n >= 10 {
        digits_of(n / 10)
    } else {
        Vec::new()
    };
    let ghost before = d@;
    d.push((n % 10) as u8);
    proof {
        assert(d@.drop_last() =~= before);
        if n < 10 {
            assert(digits_value(before) == 0);
        }
    }
    d
}

/// The value of the digit character `c`.
fn digit_from(c: char) -> (v: u8)
    requires
        is_digit(c),
    ensures
        v == digit_value(c),
        v <= 9,
{
    if c == '0' {
        0
    } else if c == '1' {
        1
    } else if c == '2' {
        2
    } else if c == '3' {
        3
    } else if c == '4' {
        4
    } else if c == '5' {
        5
    } else if c == '6' {
        6
    } else if c == '7' {
        7
    } else if c == '8' {
        8
    } else {
        9
    }
}

impl Number {
    /// The invariant of a number: its digits are decimal digits, no more of
    /// them stand behind the point than there are, and zero has no sign.
    #[verifier::type_invariant]
    spec fn wf(&self) -> bool {
        &&& all_digits(self.digits@)
        &&& self.scale <= self.digits@.len()
        &&& self.negative ==> digits_value(self.digits@) > 0
    }

    /// The whole number `n`.
    pub fn from_u64(n: u64) -> (number: Number)
        ensures
            number@ == (NumberView { mantissa: n as int, scale: 0 }),
    {
        Number { negative: false, digits: digits_of(n), scale: 0 }
    }

    /// The whole number `n`.
    pub fn from_i64(n: i64) -> (number: Number)
        ensures
            number@ == (NumberView { mantissa: n as int, scale: 0 }),
    {
        if n < 0 {
            let magnitude: u64 = if n == i64::MIN {
                9223372036854775808u64
            } else {
                (-n) as u64
            };
            Number { negative: true, digits: digits_of(magnitude), scale: 0 }
        } else {
            Number { negative: false, digits: digits_of(n as u64), scale: 0 }
        }
    }

    /// The number that `text` writes, where it is a decimal number.
    pub fn parse(text: &str) -> (number: Option<Number>)
        ensures
            number is Some <==> is_decimal(text@),
            number matches Some(n) ==> n@ == decimal_value(text@),
    {
        let chars = chars_of(text);
        let n = chars.len();
        let mut digits: Vec<u8> = Vec::new();
        let mut i: usize = 0;
        while i < n && CharClass::Digit.has(chars[i])
            invariant
                n == chars@.len(),
                i <= n,
                run_end(chars@, i as int, CharClass::Digit) == run_end(chars@, 0, CharClass::Digit),
                digits@ == digit_values(chars@.subrange(0, i as int)),
                all_digits(digits@),
            decreases n - i,
        {
            digits.push(digit_from(chars[i]));
            proof {
                assert(digit_values(chars@.subrange(0, i as int)).push(digit_value(chars@[i as int]))
                    =~= digit_values(chars@.subrange(0, i as int + 1)));
            }
            i += 1;
        }
        if i == 0 {
            return None;
        }
        if i == n {
            proof {
                assert(chars@.subrange(0, n as int) =~= chars@);
            }
            return Some(Number { negative: false, digits, scale: 0 });
        }
        if chars[i] != '.' || i + 1 >= n {
            return None;
        }
        let dot = i;
        i += 1;
        let ghost whole = chars@.subrange(0, dot as int);
        while i < n && CharClass::Digit.has(chars[i])
            invariant
                n == chars@.len(),
                dot < i <= n,
                whole == chars@.subrange(0, dot as int),
                run_end(chars@, i as int, CharClass::Digit) == run_end(
                    chars@,
                    dot as int + 1,
                    CharClass::Digit,
                ),
                digits@ == digit_values(whole + chars@.subrange(dot as int + 1, i as int)),
                all_digits(digits@),
            decreases n - i,
        {
            digits.push(digit_from(chars[i]));
            proof {
                assert(digit_values(whole + chars@.subrange(dot as int + 1, i as int)).push(
                    digit_value(chars@[i as int]),
                ) =~= digit_values(whole + chars@.subrange(dot as int + 1, i as int + 1)));
            }
            i += 1;
        }
        if i < n {
            return None;
        }
        Some(Number { negative: false, digits, scale: n - dot - 1 })
    }

    /// Whether this number is below zero.
    pub closed spec fn negative(&self) -> bool {
        self.negative
    }

    /// The decimal digits of this number, as it was made.
    pub closed spec fn digits(&self) -> Seq<u8> {
        self.digits@
    }

    /// How many of the digits stand behind the decimal point.
    pub closed spec fn places(&self) -> int {
        self.scale as int
    }

    /// The number as it is written.
    pub fn to_string(&self) -> (out: String)
        ensures
            out@ == number_text(self.negative(), self.digits(), self.places()),
    {
        proof {
            use_type_invariant(self);
        }
        let n = self.digits.len();
        let point = n - self.scale;
        let ghost whole = self.digits@.take(point as int);
        let ghost fraction = self.digits@.skip(point as int);
        let mut z: usize = 0;
        while z < point && self.digits[z] == 0
            invariant
                z <= point <= self.digits@.len(),
                forall|i: int| 0 <= i < z ==> self.digits@[i] == 0,
            decreases point - z,
        {
            z += 1;
        }
        let mut t: usize = n;
        while t > point && self.digits[t - 1] == 0
            invariant
                point <= t <= n,
                n == self.digits@.len(),
                forall|i: int| t <= i < n ==> self.digits@[i] == 0,
            decreases t,
        {
            t -= 1;
        }
        proof {
            lemma_zeros_in_front(whole, z as int);
            lemma_zeros_behind(fraction, t - point);
            assert(whole.skip(z as int) =~= self.digits@.subrange(z as int, point as int));
            assert(fraction.take(t - point) =~= self.digits@.subrange(point as int, t as int));
        }
        let mut out = String::new();
        if self.negative {
            push_char(&mut out, '-');
        }
        let ghost sign = out@;
        if z == point {
            push_char(&mut out, '0');
        } else {
            push_digits(&mut out, &self.digits, z, point);
        }
        let ghost front = out@;
        if t > point {
            push_char(&mut out, '.');
            push_digits(&mut out, &self.digits, point, t);
            proof {
                assert(out@ =~= front + (seq!['.'] + digits_text(
                    self.digits@.subrange(point as int, t as int),
                )));
            }
        } else {
            proof {
                assert(out@ =~= front + Seq::<char>::empty());
            }
        }
        proof {
            assert(sign =~= if self.negative {
                seq!['-']
            } else {
                Seq::<char>::empty()
            });
        }
        out
    }

    /// Whether this number is zero.
    pub fn is_zero(&self) -> (zero: bool)
        ensures
            zero == (self@.mantissa == 0),
    {
        let z = leading_zeros(&self.digits);
        proof {
            use_type_invariant(self);
            lemma_leading_zeros(self.digits@, z as int);
            if z < self.digits@.len() {
                lemma_value_bounds(self.digits@.skip(z as int));
                lemma_pow10_positive((self.digits@.len() - z - 1) as nat);
            } else {
                assert(self.digits@.skip(z as int) =~= Seq::<u8>::empty());
            }
        }
        z == self.digits.len()
    }

    /// How this number stands to `other`.
    pub fn compare(&self, other: &Number) -> (order: Order)
        ensures
            order == self@.order(other@),
    {
        proof {
            use_type_invariant(self);
            use_type_invariant(other);
        }
        let ghost va = digits_value(self.digits@) as int;
        let ghost vb = digits_value(other.digits@) as int;
        let ghost pa = pow10(self.scale as nat) as int;
        let ghost pb = pow10(other.scale as nat) as int;
        proof {
            lemma_pow10_positive(self.scale as nat);
            lemma_pow10_positive(other.scale as nat);
        }
        if self.negative && !other.negative {
            proof {
                assert((-va) * pb < 0) by (nonlinear_arith)
                    requires
                        va > 0,
                        pb > 0,
                ;
                assert(vb * pa >= 0) by (nonlinear_arith)
                    requires
                        vb >= 0,
                        pa > 0,
                ;
            }
            Order::Less
        } else if !self.negative && other.negative {
            proof {
                assert((-vb) * pa < 0) by (nonlinear_arith)
                    requires
                        vb > 0,
                        pa > 0,
                ;
                assert(va * pb >= 0) by (nonlinear_arith)
                    requires
                        va >= 0,
                        pb > 0,
                ;
            }
            Order::Greater
        } else if self.negative {
            proof {
                assert((-va) * pb == -(va * pb)) by (nonlinear_arith);
                assert((-vb) * pa == -(vb * pa)) by (nonlinear_arith);
            }
            match compare_scaled(&self.digits, self.scale, &other.digits, other.scale) {
                Order::Less => Order::Greater,
                Order::Equal => Order::Equal,
                Order::Greater => Order::Less,
            }
        } else {
            compare_scaled(&self.digits, self.scale, &other.digits, other.scale)
        }
    }
}

} // verus!
