//! Decimal numerals in options: an optional sign, digits with an optional point among
//! them, and an optional exponent.

use vstd::arithmetic::power::{
    lemma_pow0, lemma_pow1, lemma_pow_adds, lemma_pow_positive, lemma_pow_strictly_increases, pow,
};
use vstd::prelude::*;
use vstd::string::*;

verus! {

/// A number: its digits times a power of ten, negated if so marked.
#[verifier::ext_equal]
pub struct Numeral {
    pub negative: bool,
    pub digits: Seq<u8>,
    pub scale: int,
}

/// Whether `c` is a decimal digit.
pub open spec fn is_digit(c: char) -> bool {
    '0' <= c <= '9'
}

/// The values of digits.
pub open spec fn values(s: Seq<char>) -> Seq<u8> {
    Seq::new(s.len(), |i: int| (s[i] as u32 - 48) as u8)
}

/// The number that digits stand for.
pub open spec fn number(digits: Seq<u8>) -> nat
    decreases digits.len(),
{
    if digits.len() == 0 {
        0
    } else {
        number(digits.drop_last()) * 10 + digits.last() as nat
    }
}

/// Where the digits that begin at `i` end.
pub open spec fn digit_run(s: Seq<char>, i: int) -> int
    decreases s.len() - i,
{
    if 0 <= i < s.len() && is_digit(s[i]) {
        digit_run(s, i + 1)
    } else {
        i
    }
}

/// Where the sign that may stand at `i` ends.
pub open spec fn sign_end(s: Seq<char>, i: int) -> int {
    if i < s.len() && (s[i] == '+' || s[i] == '-') {
        i + 1
    } else {
        i
    }
}

/// Whether a minus sign stands at `i`.
pub open spec fn is_minus(s: Seq<char>, i: int) -> bool {
    i < s.len() && s[i] == '-'
}

/// The exponent that `s` ends in from `i` on, or `None` where no exponent stands there.
pub open spec fn exponent_of(s: Seq<char>, i: int) -> Option<int> {
    let from = sign_end(s, i + 1);
    let size = number(values(s.subrange(from, digit_run(s, from))));
    if !(s[i] == 'e' || s[i] == 'E') || digit_run(s, from) == from || digit_run(s, from)
        != s.len() {
        None
    } else if is_minus(s, i + 1) {
        Some(-size)
    } else {
        Some(size as int)
    }
}

/// The number that a numeral stands for, or `None` where `s` is no numeral.
pub open spec fn numeral_of(s: Seq<char>) -> Option<Numeral> {
    let start = sign_end(s, 0);
    let point = digit_run(s, start);
    let rest = if point < s.len() && s[point] == '.' {
        point + 1
    } else {
        point
    };
    let end = digit_run(s, rest);
    let digits = values(s.subrange(start, point)) + values(s.subrange(rest, end));
    if digits.len() == 0 {
        None
    } else if end == s.len() {
        Some(Numeral { negative: is_minus(s, 0), digits, scale: rest - end })
    } else {
        match exponent_of(s, end) {
            Some(e) => Some(
                Numeral { negative: is_minus(s, 0), digits, scale: e + rest - end },
            ),
            None => None,
        }
    }
}

impl Numeral {
    /// The number is `t` tenths.
    pub open spec fn is_tenths(self, t: nat) -> bool {
        &&& !self.negative
        &&& scaled(number(self.digits), self.scale + 1, t)
    }
}

/// `n` times ten to the power `k` is `t`.
pub open spec fn scaled(n: nat, k: int, t: nat) -> bool {
    if k >= 0 {
        n * pow(10, k as nat) == t
    } else {
        n == t * pow(10, (-k) as nat)
    }
}

proof fn lemma_run_step(s: Seq<char>, from: int, i: int)
    requires
        0 <= from <= i <= s.len(),
        forall|j: int| from <= j < i ==> is_digit(#[trigger] s[j]),
    ensures
        digit_run(s, from) == digit_run(s, i),
    decreases i - from,
{
    if from < i {
        assert(is_digit(s[from]));
        lemma_run_step(s, from + 1, i);
    }
}

/// Append the values of the digits of `s` that begin at `from`; where they end.
fn read_digits(s: &str, from: usize, out: &mut Vec<u8>) -> (end: usize)
    requires
        from <= s@.len(),
        forall|j: int| 0 <= j < old(out)@.len() ==> old(out)@[j] < 10,
    ensures
        end == digit_run(s@, from as int),
        from <= end <= s@.len(),
        final(out)@ == old(out)@ + values(s@.subrange(from as int, end as int)),
        forall|j: int| 0 <= j < final(out)@.len() ==> final(out)@[j] < 10,
{
    let n: usize = s.unicode_len();
    let mut i: usize = from;
    assert(out@ =~= old(out)@ + values(s@.subrange(from as int, i as int)));
    while i < n
        invariant
            n == s@.len(),
            from <= i <= n,
            forall|j: int| from <= j < i ==> is_digit(#[trigger] s@[j]),
            out@ == old(out)@ + values(s@.subrange(from as int, i as int)),
            forall|j: int| 0 <= j < out@.len() ==> out@[j] < 10,
        decreases n - i,
    {
        let c = s.get_char(i);
        if !('0' <= c && c <= '9') {
            proof {
                lemma_run_step(s@, from as int, i as int);
            }
            return i;
        }
        let ghost before = out@;
        out.push((c as u32 - 48) as u8);
        proof {
            let piece = s@.subrange(from as int, i as int);
            assert(s@.subrange(from as int, i + 1) =~= piece.push(c));
            assert(values(piece.push(c)) =~= values(piece).push((c as u32 - 48) as u8));
            assert(out@ =~= old(out)@ + values(s@.subrange(from as int, i + 1)));
        }
        i = i + 1;
    }
    proof {
        lemma_run_step(s@, from as int, i as int);
    }
    i
}

proof fn lemma_number_grows(digits: Seq<u8>, n: int)
    requires
        0 <= n <= digits.len(),
    ensures
        number(digits.take(n)) <= number(digits),
    decreases digits.len() - n,
{
    if n < digits.len() {
        lemma_number_grows(digits, n + 1);
        assert(digits.take(n + 1).drop_last() =~= digits.take(n));
    } else {
        assert(digits.take(n) =~= digits);
    }
}

/// The number that the first `n` digits stand for, or `None` where it is over the cap.
fn capped_number(digits: &Vec<u8>, n: usize, cap: u128) -> (r: Option<u128>)
    requires
        n <= digits@.len(),
        cap <= 0x1_0000_0000_0000_0000_0000_0000,
        forall|j: int| 0 <= j < digits@.len() ==> digits@[j] < 10,
    ensures
        match r {
            Some(v) => v == number(digits@.take(n as int)) && v <= cap,
            None => number(digits@.take(n as int)) > cap,
        },
{
    let mut v: u128 = 0;
    let mut i: usize = 0;
    while i < n
        invariant
            i <= n <= digits@.len(),
            cap <= 0x1_0000_0000_0000_0000_0000_0000,
            v <= cap,
            v == number(digits@.take(i as int)),
            forall|j: int| 0 <= j < digits@.len() ==> digits@[j] < 10,
        decreases n - i,
    {
        assert(digits@.take(i + 1).drop_last() =~= digits@.take(i as int));
        v = v * 10 + digits[i] as u128;
        if v > cap {
            proof {
                lemma_number_grows(digits@.take(n as int), i + 1);
                assert(digits@.take(n as int).take(i + 1) =~= digits@.take(i + 1));
            }
            return None;
        }
        i = i + 1;
    }
    Some(v)
}

/// A last digit of zero is a power of ten.
proof fn lemma_strip(digits: Seq<u8>, k: int, t: nat)
    requires
        digits.len() > 0,
        digits.last() == 0,
    ensures
        scaled(number(digits), k, t) == scaled(number(digits.drop_last()), k + 1, t),
{
    let m = number(digits.drop_last()) as int;
    assert(number(digits) == m * 10);
    lemma_pow1(10);
    if k >= 0 {
        lemma_pow_adds(10, 1, k as nat);
        let p = pow(10, k as nat);
        assert((m * 10) * p == m * (10 * p)) by (nonlinear_arith);
    } else {
        let j = (-k - 1) as nat;
        lemma_pow_adds(10, 1, j);
        let p = pow(10, j);
        let ti = t as int;
        assert(ti * (10 * p) == (ti * p) * 10) by (nonlinear_arith);
        if k + 1 == 0 {
            lemma_pow0(10);
            assert(m * 1 == m && ti * 1 == ti);
        }
    }
}

/// A number whose last digit is not zero is no multiple of ten.
proof fn lemma_out_of_range(digits: Seq<u8>, k: int, t: nat)
    requires
        digits.len() > 0 ==> 0 < digits.last() < 10,
        k < 0 || k > 2,
        1 <= t < 1000,
    ensures
        !scaled(number(digits), k, t),
{
    let n = number(digits) as int;
    let ti = t as int;
    if k < 0 {
        let j = (-k - 1) as nat;
        lemma_pow_adds(10, 1, j);
        lemma_pow1(10);
        lemma_pow_positive(10, j);
        let p = pow(10, j);
        assert(ti * (10 * p) == (ti * p) * 10) by (nonlinear_arith);
        assert(ti * p > 0) by (nonlinear_arith)
            requires
                ti >= 1,
                p >= 1,
        ;
        if digits.len() > 0 {
            let m = number(digits.drop_last()) as int;
            assert(n == m * 10 + digits.last());
        }
    } else if digits.len() > 0 {
        let j = (k - 3) as nat;
        lemma_pow_adds(10, 3, j);
        lemma_pow_positive(10, j);
        lemma_pow_small();
        let p = pow(10, j);
        assert(n >= 1);
        assert(n * (1000 * p) >= 1000) by (nonlinear_arith)
            requires
                n >= 1,
                p >= 1,
        ;
    } else {
        let p = pow(10, k as nat);
        assert(0 * p == 0);
    }
}

proof fn lemma_pow_small()
    ensures
        pow(10, 0) == 1,
        pow(10, 1) == 10,
        pow(10, 2) == 100,
        pow(10, 3) == 1000,
{
    lemma_pow0(10);
    lemma_pow1(10);
    lemma_pow_adds(10, 1, 1);
    lemma_pow_adds(10, 2, 1);
}

/// How many tenths the digits make, times ten to the power `k`, as far as it is a whole
/// number from 1 to `most`.
fn tenths_of_digits(digits: &Vec<u8>, k: i128, most: u32) -> (r: Option<u32>)
    requires
        most < 1000,
        -0x4_0000_0000_0000_0000_0000_0000 <= k <= 0x4_0000_0000_0000_0000_0000_0000,
        forall|j: int| 0 <= j < digits@.len() ==> digits@[j] < 10,
    ensures
        match r {
            Some(t) => 1 <= t <= most && scaled(number(digits@), k as int, t as nat),
            None => forall|t: nat|
                1 <= t <= most ==> !scaled(number(digits@), k as int, t),
        },
{
    let mut n: usize = digits.len();
    let mut k: i128 = k;
    let ghost k0 = k;
    assert(digits@.take(n as int) =~= digits@);
    while n > 0 && digits[n - 1] == 0
        invariant
            n <= digits@.len(),
            k == k0 + (digits@.len() - n),
            digits@.len() <= usize::MAX,
            -0x4_0000_0000_0000_0000_0000_0000 <= k0 <= 0x4_0000_0000_0000_0000_0000_0000,
            forall|t: nat|
                scaled(number(digits@), k0 as int, t) == #[trigger] scaled(
                    number(digits@.take(n as int)),
                    k as int,
                    t,
                ),
        decreases n,
    {
        proof {
            let d = digits@.take(n as int);
            assert(d.drop_last() =~= digits@.take(n - 1));
            assert forall|t: nat|
                scaled(number(digits@), k0 as int, t) == #[trigger] scaled(
                    number(digits@.take(n - 1)),
                    k + 1,
                    t,
                ) by {
                lemma_strip(d, k as int, t);
                assert(scaled(number(digits@), k0 as int, t) == scaled(number(d), k as int, t));
            }
        }
        n = n - 1;
        k = k + 1;
    }
    let ghost d = digits@.take(n as int);
    if k < 0 || k > 2 {
        proof {
            assert forall|t: nat| 1 <= t <= most implies !scaled(
                number(digits@),
                k0 as int,
                t,
            ) by {
                lemma_out_of_range(d, k as int, t);
                assert(scaled(number(digits@), k0 as int, t) == scaled(number(d), k as int, t));
            }
        }
        return None;
    }
    proof {
        lemma_pow_small();
    }
    let v: u128 = match capped_number(digits, n, 1000) {
        Some(v) => v,
        None => {
            proof {
                assert forall|t: nat| 1 <= t <= most implies !scaled(
                    number(digits@),
                    k0 as int,
                    t,
                ) by {
                    assert(scaled(number(digits@), k0 as int, t) == scaled(
                        number(d),
                        k as int,
                        t,
                    ));
                }
            }
            return None;
        },
    };
    let t: u128 = if k == 0 {
        v
    } else if k == 1 {
        v * 10
    } else {
        v * 100
    };
    assert(scaled(number(d), k as int, t as nat));
    if t >= 1 && t <= most as u128 {
        assert(scaled(number(digits@), k0 as int, t as nat));
        return Some(t as u32);
    }
    proof {
        assert forall|u: nat| 1 <= u <= most implies !scaled(
            number(digits@),
            k0 as int,
            u,
        ) by {
            assert(scaled(number(digits@), k0 as int, u) == scaled(number(d), k as int, u));
        }
    }
    None
}

proof fn lemma_number_bound(digits: Seq<u8>)
    requires
        forall|j: int| 0 <= j < digits.len() ==> digits[j] < 10,
    ensures
        number(digits) < pow(10, digits.len()),
    decreases digits.len(),
{
    if digits.len() == 0 {
        lemma_pow0(10);
    } else {
        lemma_number_bound(digits.drop_last());
        lemma_pow1(10);
        lemma_pow_adds(10, 1, (digits.len() - 1) as nat);
    }
}

/// An exponent that is far larger than the number of digits leaves no small number.
proof fn lemma_too_far(digits: Seq<u8>, k: int, t: nat)
    requires
        forall|j: int| 0 <= j < digits.len() ==> digits[j] < 10,
        k < -digits.len() || k > 2,
        1 <= t < 1000,
    ensures
        !scaled(number(digits), k, t),
{
    let n = number(digits) as int;
    let ti = t as int;
    if k < 0 {
        lemma_number_bound(digits);
        lemma_pow_strictly_increases(10, digits.len(), (-k) as nat);
        let p = pow(10, (-k) as nat);
        assert(ti * p >= p) by (nonlinear_arith)
            requires
                ti >= 1,
                p >= 0,
        ;
    } else {
        let j = (k - 3) as nat;
        lemma_pow_adds(10, 3, j);
        lemma_pow_positive(10, j);
        lemma_pow_small();
        let p = pow(10, j);
        assert(n == 0 ==> n * (1000 * p) == 0) by (nonlinear_arith);
        assert(n >= 1 ==> n * (1000 * p) >= 1000) by (nonlinear_arith)
            requires
                p >= 1,
        ;
    }
}

/// A character with its case taken off, if it is an ASCII letter.
pub open spec fn lower(c: char) -> char {
    if 'A' <= c <= 'Z' {
        (c as u32 + 32) as char
    } else {
        c
    }
}

/// The text from `i` on is `word`, whatever the case of its letters.
pub open spec fn ends_in_word(s: Seq<char>, i: int, word: Seq<char>) -> bool {
    &&& s.len() == i + word.len()
    &&& forall|j: int| 0 <= j < word.len() ==> lower(#[trigger] s[i + j]) == word[j]
}

/// A number without digits: infinity, or no number at all by name.
pub open spec fn is_special(s: Seq<char>) -> bool {
    let i = sign_end(s, 0);
    ends_in_word(s, i, "inf"@) || ends_in_word(s, i, "infinity"@) || ends_in_word(s, i, "nan"@)
}

fn is_word(s: &str, i: usize, word: &str) -> (yes: bool)
    requires
        i <= s@.len(),
    ensures
        yes == ends_in_word(s@, i as int, word@),
{
    let n: usize = s.unicode_len();
    let m: usize = word.unicode_len();
    if n - i != m {
        return false;
    }
    let mut j: usize = 0;
    while j < m
        invariant
            n == s@.len(),
            m == word@.len(),
            n - i == m,
            i <= n,
            j <= m,
            forall|k: int| 0 <= k < j ==> lower(#[trigger] s@[i + k]) == word@[k],
        decreases m - j,
    {
        let c = s.get_char(i + j);
        let l: char = if 'A' <= c && c <= 'Z' {
            (c as u8 + 32) as char
        } else {
            c
        };
        assert(l == lower(c));
        if l != word.get_char(j) {
            assert(lower(s@[i + j]) != word@[j as int]);
            return false;
        }
        j = j + 1;
    }
    true
}

/// Whether a text is infinity or no number by name, with or without a sign.
pub fn names_special(s: &str) -> (yes: bool)
    ensures
        yes == is_special(s@),
{
    let n: usize = s.unicode_len();
    let start: usize = if n > 0 && (s.get_char(0) == '+' || s.get_char(0) == '-') {
        1
    } else {
        0
    };
    is_word(s, start, "inf") || is_word(s, start, "infinity") || is_word(s, start, "nan")
}

/// A numeral that was read.
#[derive(Clone, Copy, Debug, PartialEq, Eq, Structural)]
pub enum Reading {
    /// The text is no numeral.
    NotANumber,
    /// The number is no whole number of tenths, or too small or too large.
    OutOfRange,
    /// The number in tenths.
    Tenths(u32),
}

/// Read a numeral as tenths, from 1 to `most`.
#[verifier::rlimit(40)]
pub fn read_tenths(s: &str, most: u32) -> (r: Reading)
    requires
        most < 1000,
    ensures
        match r {
            Reading::NotANumber => numeral_of(s@) is None,
            Reading::OutOfRange => numeral_of(s@) is Some && forall|t: nat|
                1 <= t <= most ==> !#[trigger] numeral_of(s@)->0.is_tenths(t),
            Reading::Tenths(t) => {
                &&& numeral_of(s@) is Some
                &&& 1 <= t <= most
                &&& numeral_of(s@)->0.is_tenths(t as nat)
            },
        },
{
    let n: usize = s.unicode_len();
    let negative: bool = n > 0 && s.get_char(0) == '-';
    let start: usize = if n > 0 && (s.get_char(0) == '+' || s.get_char(0) == '-') {
        1
    } else {
        0
    };
    let mut digits: Vec<u8> = Vec::new();
    let point: usize = read_digits(s, start, &mut digits);
    let rest: usize = if point < n && s.get_char(point) == '.' {
        point + 1
    } else {
        point
    };
    let end: usize = read_digits(s, rest, &mut digits);
    let ghost all = values(s@.subrange(start as int, point as int)) + values(
        s@.subrange(rest as int, end as int),
    );
    assert(digits@ =~= all);
    if digits.len() == 0 {
        return Reading::NotANumber;
    }
    let mut scale: i128 = rest as i128 - end as i128;
    if end < n {
        let c = s.get_char(end);
        if !(c == 'e' || c == 'E') {
            return Reading::NotANumber;
        }
        let minus: bool = end + 1 < n && s.get_char(end + 1) == '-';
        let from: usize = if end + 1 < n && (s.get_char(end + 1) == '+' || s.get_char(end + 1)
            == '-') {
            end + 2
        } else {
            end + 1
        };
        let mut power: Vec<u8> = Vec::new();
        let stop: usize = read_digits(s, from, &mut power);
        assert(power@ =~= values(s@.subrange(from as int, stop as int)));
        if stop == from || stop < n {
            return Reading::NotANumber;
        }
        assert(power@.take(power@.len() as int) =~= power@);
        let cap: u128 = 0x1_0000_0000_0000_0000_0000_0000;
        let size: i128 = match capped_number(&power, power.len(), cap) {
            Some(v) => v as i128,
            None => {
                proof {
                    let e = exponent_of(s@, end as int)->0;
                    assert(numeral_of(s@)->0.digits == all);
                    assert forall|t: nat| 1 <= t <= most implies !#[trigger] numeral_of(
                        s@,
                    )->0.is_tenths(t) by {
                        assert(numeral_of(s@)->0.scale == e + rest - end);
                        lemma_too_far(all, e + rest - end + 1, t);
                    }
                }
                return Reading::OutOfRange;
            },
        };
        scale = if minus {
            scale - size
        } else {
            scale + size
        };
    }
    assert(numeral_of(s@) == Some(
        Numeral { negative, digits: digits@, scale: scale as int },
    ));
    if negative {
        return Reading::OutOfRange;
    }
    match tenths_of_digits(&digits, scale + 1, most) {
        Some(t) => Reading::Tenths(t),
        None => Reading::OutOfRange,
    }
}

/// A number is so many tenths in one way only.
pub proof fn tenths_are_unique(n: Numeral, t: nat, u: nat)
    requires
        n.is_tenths(t),
        n.is_tenths(u),
    ensures
        t == u,
{
    if n.scale + 1 < 0 {
        let p = pow(10, (-(n.scale + 1)) as nat);
        lemma_pow_positive(10, (-(n.scale + 1)) as nat);
        let (ti, ui) = (t as int, u as int);
        assert(ti * p == ui * p ==> ti == ui) by (nonlinear_arith)
            requires
                p > 0,
        ;
    }
}

proof fn lemma_run_ends(s: Seq<char>, from: int, to: int)
    requires
        0 <= from <= to <= s.len(),
        forall|j: int| from <= j < to ==> '0' <= #[trigger] s[j] <= '9',
        to == s.len() || !('0' <= s[to] <= '9'),
    ensures
        digit_run(s, from) == to,
{
    lemma_run_step(s, from, to);
}

/// Digits stand for the number that they make in base ten, from the first to the last.
pub proof fn digits_make_numbers(digits: Seq<u8>, d: u8, s: Seq<char>, i: int)
    ensures
        number(Seq::empty()) == 0,
        number(digits.push(d)) == 10 * number(digits) + d,
        values(s).len() == s.len(),
        0 <= i < s.len() && '0' <= s[i] <= '9' ==> values(s)[i] == s[i] as int - '0' as int,
{
    assert(digits.push(d).drop_last() =~= digits);
}

/// A sign, digits, a point and more digits are a numeral: that of all its digits, scaled
/// down by those behind the point. The sign may be missing, and so may the point with
/// what is behind it, as long as there is a digit.
pub proof fn digits_and_a_point_are_a_numeral(sign: Seq<char>, whole: Seq<char>, part: Seq<char>)
    requires
        sign == Seq::<char>::empty() || sign == seq!['+'] || sign == seq!['-'],
        forall|i: int| 0 <= i < whole.len() ==> '0' <= #[trigger] whole[i] <= '9',
        forall|i: int| 0 <= i < part.len() ==> '0' <= #[trigger] part[i] <= '9',
        whole.len() + part.len() > 0,
    ensures
        numeral_of(sign + whole + seq!['.'] + part) == Some(
            Numeral {
                negative: sign == seq!['-'],
                digits: values(whole + part),
                scale: -(part.len() as int),
            },
        ),
        whole.len() > 0 ==> numeral_of(sign + whole) == Some(
            Numeral { negative: sign == seq!['-'], digits: values(whole), scale: 0 },
        ),
{
    let n = sign.len() as int;
    let p = n + whole.len();
    lemma_signs(sign);
    let s = sign + whole + seq!['.'] + part;
    assert(forall|j: int| n <= j < p ==> s[j] == whole[j - n]);
    assert(forall|j: int| p < j < s.len() ==> s[j] == part[j - p - 1]);
    assert(s[p] == '.');
    if n > 0 {
        assert(s[0] == sign[0]);
    } else if whole.len() > 0 {
        assert(s[0] == whole[0]);
    }
    assert(sign_end(s, 0) == n);
    lemma_run_ends(s, n, p);
    lemma_run_ends(s, p + 1, s.len() as int);
    assert(s.subrange(n, p) =~= whole);
    assert(s.subrange(p + 1, s.len() as int) =~= part);
    assert(values(whole) + values(part) =~= values(whole + part));
    if whole.len() > 0 {
        let t = sign + whole;
        assert(forall|j: int| n <= j < p ==> t[j] == whole[j - n]);
        if n > 0 {
            assert(t[0] == sign[0]);
        } else {
            assert(t[0] == whole[0]);
        }
        assert(sign_end(t, 0) == n);
        lemma_run_ends(t, n, p);
        assert(t.subrange(n, p) =~= whole);
        assert(t.subrange(p, p) =~= Seq::empty());
        assert(values(t.subrange(n, p)) + values(t.subrange(p, p)) =~= values(whole));
    }
}

proof fn lemma_signs(sign: Seq<char>)
    requires
        sign == Seq::<char>::empty() || sign == seq!['+'] || sign == seq!['-'],
    ensures
        sign.len() <= 1,
        sign.len() == 1 ==> sign[0] == '+' || sign[0] == '-',
        sign == seq!['-'] <==> sign.len() == 1 && sign[0] == '-',
{
    if sign.len() == 1 && sign[0] == '-' {
        assert(sign =~= seq!['-']);
    }
}

/// The form of a numeral: a sign may stand in front; digits run up to `point`; behind a
/// point more digits run from `rest` to `end`; there is a digit; and what follows, if
/// anything does, is the letter e in either case, a sign that may be missing, and digits
/// from `power` on.
pub open spec fn is_written(
    s: Seq<char>,
    start: int,
    point: int,
    rest: int,
    end: int,
    power: int,
) -> bool {
    &&& 0 <= start <= 1
    &&& start <= point <= rest <= end <= s.len()
    &&& start == 1 ==> s[0] == '+' || s[0] == '-'
    &&& forall|i: int| start <= i < point ==> '0' <= #[trigger] s[i] <= '9'
    &&& rest == point && end == point || rest == point + 1 && s[point] == '.'
    &&& forall|i: int| rest <= i < end ==> '0' <= #[trigger] s[i] <= '9'
    &&& point > start || end > rest
    &&& end < s.len() ==> {
        &&& s[end] == 'e' || s[end] == 'E'
        &&& power == end + 1 || power == end + 2 && (s[end + 1] == '+' || s[end + 1] == '-')
        &&& power < s.len()
        &&& forall|i: int| power <= i < s.len() ==> '0' <= #[trigger] s[i] <= '9'
    }
}

/// A text in the form of a numeral is the number of all its digits, scaled down by those
/// behind the point and up or down by the exponent, and negative exactly if it begins
/// with a minus sign.
pub proof fn numerals_are_read_by_their_form(
    s: Seq<char>,
    start: int,
    point: int,
    rest: int,
    end: int,
    power: int,
)
    requires
        is_written(s, start, point, rest, end, power),
    ensures
        ({
            let size = number(values(s.subrange(power, s.len() as int))) as int;
            let exponent = if end == s.len() {
                0
            } else if s[end + 1] == '-' {
                -size
            } else {
                size
            };
            numeral_of(s) == Some(
                Numeral {
                    negative: s[0] == '-',
                    digits: values(s.subrange(start, point)) + values(s.subrange(rest, end)),
                    scale: exponent - (end - rest),
                },
            )
        }),
{
    assert(s.len() > 0);
    if start == 0 {
        if point > 0 {
            assert('0' <= s[0] <= '9');
        } else {
            assert(s[0] == '.');
        }
    }
    assert(sign_end(s, 0) == start);
    lemma_run_ends(s, start, point);
    lemma_run_ends(s, rest, end);
    if rest == point {
        assert(s.subrange(rest, end) =~= Seq::empty());
    }
    if end < s.len() {
        if power == end + 1 {
            assert('0' <= s[power] <= '9');
        }
        assert(sign_end(s, end + 1) == power);
        lemma_run_ends(s, power, s.len() as int);
    }
}

/// A text that is a numeral has the form of one.
pub proof fn numerals_have_their_form(s: Seq<char>)
    requires
        numeral_of(s) is Some,
    ensures
        exists|start: int, point: int, rest: int, end: int, power: int|
            is_written(s, start, point, rest, end, power),
{
    let start = sign_end(s, 0);
    let point = digit_run(s, start);
    lemma_run_is_digits(s, start);
    let rest = if point < s.len() && s[point] == '.' {
        point + 1
    } else {
        point
    };
    let end = digit_run(s, rest);
    lemma_run_is_digits(s, rest);
    if rest == point && point < s.len() {
        lemma_run_stops(s, start);
    }
    let power = sign_end(s, end + 1);
    if end < s.len() {
        lemma_run_is_digits(s, power);
    }
    assert(is_written(s, start, point, rest, end, power));
}

proof fn lemma_run_stops(s: Seq<char>, i: int)
    requires
        0 <= i <= s.len(),
    ensures
        digit_run(s, digit_run(s, i)) == digit_run(s, i),
    decreases s.len() - i,
{
    if i < s.len() && is_digit(s[i]) {
        lemma_run_stops(s, i + 1);
    }
}

/// A text with any other character than digits, signs, a point and the letter e, or
/// without a digit, is no numeral.
pub proof fn numerals_have_only_their_characters(s: Seq<char>)
    requires
        numeral_of(s) is Some,
    ensures
        forall|i: int|
            0 <= i < s.len() ==> {
                let c = #[trigger] s[i];
                '0' <= c <= '9' || c == '+' || c == '-' || c == '.' || c == 'e' || c == 'E'
            },
        exists|i: int| 0 <= i < s.len() && '0' <= #[trigger] s[i] <= '9',
{
    let start = sign_end(s, 0);
    let point = digit_run(s, start);
    lemma_run_is_digits(s, start);
    let rest = if point < s.len() && s[point] == '.' {
        point + 1
    } else {
        point
    };
    let end = digit_run(s, rest);
    lemma_run_is_digits(s, rest);
    if end < s.len() {
        lemma_run_is_digits(s, sign_end(s, end + 1));
    }
    if point > start {
        assert('0' <= s[start] <= '9');
    } else {
        assert('0' <= s[rest] <= '9');
    }
}

proof fn lemma_run_is_digits(s: Seq<char>, i: int)
    requires
        0 <= i <= s.len(),
    ensures
        i <= digit_run(s, i) <= s.len(),
        forall|j: int| i <= j < digit_run(s, i) ==> '0' <= #[trigger] s[j] <= '9',
    decreases s.len() - i,
{
    if i < s.len() && is_digit(s[i]) {
        lemma_run_is_digits(s, i + 1);
    }
}

/// A number scaled by a tenth is so many tenths as its digits say; a zero more behind the
/// digits and one step less of scale are the same number; and no negative number is any
/// number of tenths.
pub proof fn tenths_go_by_value(n: Numeral, t: nat)
    ensures
        n.negative ==> !n.is_tenths(t),
        !n.negative && n.scale == -1 ==> (n.is_tenths(t) <==> number(n.digits) == t),
        n.is_tenths(t) <==> (Numeral {
            digits: n.digits.push(0),
            scale: n.scale - 1,
            ..n
        }).is_tenths(t),
{
    let k = n.scale + 1;
    let v = number(n.digits) as int;
    let m = t as int;
    digits_make_numbers(n.digits, 0, Seq::empty(), 0);
    lemma_pow0(10);
    lemma_pow1(10);
    if k > 0 {
        lemma_pow_adds(10, 1, (k - 1) as nat);
        let p = pow(10, (k - 1) as nat);
        assert(v * (10 * p) == (10 * v) * p) by (nonlinear_arith);
    } else {
        lemma_pow_adds(10, 1, (-k) as nat);
        let p = pow(10, (-k) as nat);
        assert(10 * v == m * (10 * p) <==> v == m * p) by (nonlinear_arith);
        if k == 0 {
            assert(v * 1 == v && m * 1 == m);
        }
    }
}

/// The names of what is no finite number, without a sign: inf, infinity and nan, each
/// letter in either case. A sign in front of a name changes nothing.
pub proof fn special_names(s: Seq<char>, sign: char)
    requires
        s.len() > 0,
        s[0] != '+' && s[0] != '-',
        sign == '+' || sign == '-',
    ensures
        s.len() == 3 ==> (is_special(s) <==> {
            ||| (s[0] == 'i' || s[0] == 'I') && (s[1] == 'n' || s[1] == 'N') && (s[2] == 'f' || s[2]
                == 'F')
            ||| (s[0] == 'n' || s[0] == 'N') && (s[1] == 'a' || s[1] == 'A') && (s[2] == 'n' || s[2]
                == 'N')
        }),
        s.len() == 8 ==> (is_special(s) <==> {
            &&& s[0] == 'i' || s[0] == 'I'
            &&& s[1] == 'n' || s[1] == 'N'
            &&& s[2] == 'f' || s[2] == 'F'
            &&& s[3] == 'i' || s[3] == 'I'
            &&& s[4] == 'n' || s[4] == 'N'
            &&& s[5] == 'i' || s[5] == 'I'
            &&& s[6] == 't' || s[6] == 'T'
            &&& s[7] == 'y' || s[7] == 'Y'
        }),
        s.len() != 3 && s.len() != 8 ==> !is_special(s),
        is_special(seq![sign] + s) <==> is_special(s),
{
    reveal_strlit("inf");
    reveal_strlit("infinity");
    reveal_strlit("nan");
    let t = seq![sign] + s;
    assert(t[0] == sign);
    assert(forall|j: int| 0 <= j < s.len() ==> t[1 + j] == #[trigger] s[j]);
    assert(forall|j: int| 0 <= j < s.len() ==> s[0 + j] == #[trigger] t[1 + j]);
    lemma_word_shift(s, t, "inf"@);
    lemma_word_shift(s, t, "infinity"@);
    lemma_word_shift(s, t, "nan"@);
    if s.len() == 3 {
        lemma_word3(s, "inf"@);
        lemma_word3(s, "nan"@);
    }
    if s.len() == 8 {
        lemma_word8(s, "infinity"@);
    }
}

proof fn lemma_word_shift(s: Seq<char>, t: Seq<char>, word: Seq<char>)
    requires
        t.len() == s.len() + 1,
        forall|j: int| 0 <= j < s.len() ==> t[1 + j] == #[trigger] s[j],
    ensures
        ends_in_word(s, 0, word) <==> ends_in_word(t, 1, word),
{
    if s.len() == word.len() {
        assert forall|j: int| 0 <= j < word.len() implies s[0 + j] == #[trigger] t[1 + j] by {
            assert(t[1 + j] == s[j]);
        }
        if ends_in_word(s, 0, word) {
            assert forall|j: int| 0 <= j < word.len() implies lower(#[trigger] t[1 + j])
                == word[j] by {
                assert(lower(s[0 + j]) == word[j]);
            }
        }
        if ends_in_word(t, 1, word) {
            assert forall|j: int| 0 <= j < word.len() implies lower(#[trigger] s[0 + j])
                == word[j] by {
                assert(lower(t[1 + j]) == word[j]);
            }
        }
    }
}

proof fn lemma_word3(s: Seq<char>, word: Seq<char>)
    requires
        s.len() == 3,
        word.len() == 3,
    ensures
        ends_in_word(s, 0, word) <==> lower(s[0]) == word[0] && lower(s[1]) == word[1] && lower(s[2])
            == word[2],
{
    if ends_in_word(s, 0, word) {
        assert(lower(s[0int + 0]) == word[0] && lower(s[0int + 1]) == word[1] && lower(s[0int + 2])
            == word[2]);
    }
}

proof fn lemma_word8(s: Seq<char>, word: Seq<char>)
    requires
        s.len() == 8,
        word.len() == 8,
    ensures
        ends_in_word(s, 0, word) <==> lower(s[0]) == word[0] && lower(s[1]) == word[1] && lower(s[2])
            == word[2] && lower(s[3]) == word[3] && lower(s[4]) == word[4] && lower(s[5]) == word[5]
            && lower(s[6]) == word[6] && lower(s[7]) == word[7],
{
    if ends_in_word(s, 0, word) {
        assert(lower(s[0int + 0]) == word[0] && lower(s[0int + 1]) == word[1] && lower(s[0int + 2])
            == word[2] && lower(s[0int + 3]) == word[3]);
        assert(lower(s[0int + 4]) == word[4] && lower(s[0int + 5]) == word[5] && lower(s[0int + 6])
            == word[6] && lower(s[0int + 7]) == word[7]);
    }
}

} // verus!
