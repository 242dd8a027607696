//! Similarity scores, read from the service's decimal notation.
//!
//! The service writes a score as plain decimal text such as `92.50`. A score is
//! kept as a whole number of hundredths, so that comparing it with a threshold is
//! exact.

use vstd::prelude::*;
use vstd::string::*;
use vstd::utf8::is_ascii_chars;
use crate::decimal::{digit_value, digits_value, is_digit, lemma_digits_step};

verus! {

/// Hundredths in the highest score, 100.00.
pub const FULL_SCALE: u16 = 10_000;

/// Hundredths in the customary threshold, 70.00.
pub const DEFAULT_THRESHOLD: u16 = 7_000;

/// `c` is one of the 128 characters of ASCII.
pub open spec fn is_ascii_char(c: char) -> bool {
    '\0' <= c && c <= '\u{7f}'
}

/// The digit of `s` at `i`, read as zero past the end.
pub open spec fn digit_at(s: Seq<char>, i: int) -> nat {
    if 0 <= i < s.len() {
        digit_value(s[i])
    } else {
        0
    }
}

/// `s` is plain decimal notation whose whole part ends at `p`: every character
/// but the one at `p` is a digit, the one at `p`, if there is one, is the point,
/// and there is at least one digit.
pub open spec fn splits_at(s: Seq<char>, p: int) -> bool {
    &&& 0 <= p <= s.len()
    &&& forall|j: int| 0 <= j < s.len() && j != p ==> is_digit(#[trigger] s[j])
    &&& p < s.len() ==> s[p] == '.'
    &&& s.len() >= 1
    &&& s.len() == 1 ==> p == 1
}

/// The value of `s`, split at `p`, in hundredths, rounded down.
pub open spec fn hundredths_at(s: Seq<char>, p: int) -> nat {
    100 * digits_value(s.take(p)) + 10 * digit_at(s, p + 1) + digit_at(s, p + 2)
}

/// Every digit of `s` beyond the second after the point at `p` is a zero.
pub open spec fn exact_at(s: Seq<char>, p: int) -> bool {
    forall|j: int| p + 3 <= j < s.len() ==> #[trigger] s[j] == '0'
}

/// The value of `s`, split at `p`, lies between 0 and 100.
pub open spec fn in_range_at(s: Seq<char>, p: int) -> bool {
    hundredths_at(s, p) < FULL_SCALE || (hundredths_at(s, p) == FULL_SCALE && exact_at(s, p))
}

/// `s` is the decimal notation of a score between 0 and 100.
pub open spec fn is_score(s: Seq<char>) -> bool {
    exists|p: int| splits_at(s, p) && in_range_at(s, p)
}

/// The score that `s` denotes, in hundredths rounded down, if it denotes one.
pub open spec fn score_of(s: Seq<char>) -> Option<nat> {
    if is_score(s) {
        Some(hundredths_at(s, choose|p: int| splits_at(s, p) && in_range_at(s, p)))
    } else {
        None
    }
}

/// A score, where a text denotes one, is on the scale from 0.00 to 100.00.
pub proof fn lemma_score_on_scale(s: Seq<char>)
    ensures
        score_of(s) matches Some(hundredths) ==> hundredths <= FULL_SCALE,
{
}

/// A text splits in at most one place.
pub proof fn lemma_split_unique(s: Seq<char>, p: int, q: int)
    requires
        splits_at(s, p),
        splits_at(s, q),
    ensures
        p == q,
{
    if p != q {
        if p < s.len() {
            assert(is_digit(s[p]));
        } else {
            assert(is_digit(s[q]));
        }
    }
}

/// Whatever split witnesses a score, `score_of` gives the value at that split.
pub proof fn lemma_score_at(s: Seq<char>, p: int)
    requires
        splits_at(s, p),
    ensures
        in_range_at(s, p) ==> score_of(s) == Some(hundredths_at(s, p)),
        !in_range_at(s, p) ==> score_of(s) is None,
{
    if in_range_at(s, p) {
        let q = choose|q: int| splits_at(s, q) && in_range_at(s, q);
        lemma_split_unique(s, p, q);
    } else {
        assert forall|q: int| !(splits_at(s, q) && in_range_at(s, q)) by {
            if splits_at(s, q) {
                lemma_split_unique(s, p, q);
            }
        }
    }
}

/// Ten to the power of `k`.
pub open spec fn pow10(k: nat) -> nat
    decreases k,
{
    if k == 0 {
        1
    } else {
        10 * pow10((k - 1) as nat)
    }
}

/// The digits of `s` behind the point at `p`.
pub open spec fn fraction(s: Seq<char>, p: int) -> Seq<char> {
    if p < s.len() {
        s.skip(p + 1)
    } else {
        Seq::empty()
    }
}

/// The value of `s`, split at `p`, with every digit counted: the value times
/// ten to the number of digits behind the point.
pub open spec fn scaled_value(s: Seq<char>, p: int) -> nat {
    digits_value(s.take(p)) * pow10(fraction(s, p).len()) + digits_value(fraction(s, p))
}

/// The value of two runs of digits written one after the other.
pub proof fn lemma_digits_concat(a: Seq<char>, b: Seq<char>)
    ensures
        digits_value(a + b) == digits_value(a) * pow10(b.len()) + digits_value(b),
    decreases b.len(),
{
    if b.len() == 0 {
        assert(a + b =~= a);
        assert(digits_value(a) * 1 == digits_value(a)) by (nonlinear_arith);
    } else {
        lemma_digits_concat(a, b.drop_last());
        assert((a + b).drop_last() =~= a + b.drop_last());
        let x = digits_value(a);
        let q = pow10(b.drop_last().len());
        let y = digits_value(b.drop_last());
        let big = pow10(b.len());
        assert(big == 10 * q);
        assert(digits_value(a + b.drop_last()) == x * q + y);
        assert((a + b).last() == b.last());
        assert(digits_value(a + b) == 10 * (x * q + y) + digit_value(b.last()));
        assert(digits_value(b) == 10 * y + digit_value(b.last()));
        assert(x * big == 10 * (x * q)) by (nonlinear_arith)
            requires
                big == 10 * q,
        ;
    }
}

/// A run of `k` digits denotes a number below ten to the power of `k`.
pub proof fn lemma_digits_bound(b: Seq<char>)
    requires
        forall|i: int| 0 <= i < b.len() ==> is_digit(#[trigger] b[i]),
    ensures
        digits_value(b) < pow10(b.len()),
    decreases b.len(),
{
    if b.len() > 0 {
        lemma_digits_bound(b.drop_last());
        assert(is_digit(b[b.len() - 1]));
    }
}

/// The hundredths kept are the value rounded down: with `k` digits behind the
/// point, the value times 100 lies in the hundredths' own interval.
pub proof fn lemma_hundredths_round_down(s: Seq<char>, p: int)
    requires
        splits_at(s, p),
    ensures
        hundredths_at(s, p) * pow10(fraction(s, p).len()) <= 100 * scaled_value(s, p),
        100 * scaled_value(s, p) < (hundredths_at(s, p) + 1) * pow10(fraction(s, p).len()),
{
    let f = fraction(s, p);
    let k = f.len();
    let w = digits_value(s.take(p));
    let h = hundredths_at(s, p);
    let big = pow10(k);
    let v = scaled_value(s, p);
    assert(v == w * big + digits_value(f));
    if k == 0 {
        assert(big == 1);
        assert(digits_value(f) == 0);
        assert(h == 100 * w);
        assert(w * big == w) by (nonlinear_arith)
            requires
                big == 1,
        ;
        assert(h * big == h) by (nonlinear_arith)
            requires
                big == 1,
        ;
        assert((h + 1) * big == h + 1) by (nonlinear_arith)
            requires
                big == 1,
        ;
    } else if k == 1 {
        assert(f[0] == s[p + 1]);
        assert(f.drop_last() =~= Seq::<char>::empty());
        let d = digit_at(s, p + 1);
        assert(digits_value(f) == d) by {
            reveal_with_fuel(digits_value, 2);
        }
        assert(big == 10) by {
            reveal_with_fuel(pow10, 2);
        }
        assert(d <= 9);
        assert(h == 100 * w + 10 * d);
        assert(w * big == 10 * w) by (nonlinear_arith)
            requires
                big == 10,
        ;
        assert(h * big == 10 * h) by (nonlinear_arith)
            requires
                big == 10,
        ;
        assert((h + 1) * big == 10 * h + 10) by (nonlinear_arith)
            requires
                big == 10,
        ;
    } else {
        let head = f.take(2);
        let rest = f.skip(2);
        assert(f =~= head + rest);
        lemma_digits_concat(head, rest);
        assert forall|i: int| 0 <= i < rest.len() implies is_digit(#[trigger] rest[i]) by {
            assert(rest[i] == s[p + 3 + i]);
        }
        lemma_digits_bound(rest);
        assert(head[0] == s[p + 1] && head[1] == s[p + 2]);
        assert(head.drop_last() =~= seq![head[0]]);
        assert(seq![head[0]].drop_last() =~= Seq::<char>::empty());
        let d = 10 * digit_at(s, p + 1) + digit_at(s, p + 2);
        assert(digits_value(head) == d) by {
            reveal_with_fuel(digits_value, 3);
        }
        let q = pow10(rest.len());
        let r = digits_value(rest);
        assert(big == 100 * q) by {
            reveal_with_fuel(pow10, 3);
        }
        assert(h == 100 * w + d);
        assert(digits_value(f) == d * q + r);
        assert(r < q);
        assert(100 * (w * big + (d * q + r)) == (100 * w + d) * big + 100 * r) by (nonlinear_arith)
            requires
                big == 100 * q,
        ;
        assert((100 * w + d + 1) * big == (100 * w + d) * big + 100 * q) by (nonlinear_arith)
            requires
                big == 100 * q,
        ;
    }
}

/// Dropping digits never changes on which side of a threshold a score falls:
/// the hundredths kept reach `threshold` hundredths exactly when the value with
/// every digit counted does.
pub proof fn lemma_threshold_exact(s: Seq<char>, p: int, threshold: nat)
    requires
        splits_at(s, p),
    ensures
        hundredths_at(s, p) >= threshold <==> 100 * scaled_value(s, p) >= threshold * pow10(
            fraction(s, p).len(),
        ),
{
    lemma_hundredths_round_down(s, p);
    let h = hundredths_at(s, p);
    let q = pow10(fraction(s, p).len());
    let v = 100 * scaled_value(s, p);
    assert(q > 0) by {
        lemma_pow10_positive(fraction(s, p).len());
    }
    if h >= threshold {
        assert(threshold * q <= h * q) by (nonlinear_arith)
            requires
                threshold <= h,
                q > 0,
        ;
    } else {
        assert((h + 1) * q <= threshold * q) by (nonlinear_arith)
            requires
                h + 1 <= threshold,
                q > 0,
        ;
    }
}

/// Every power of ten is positive.
pub proof fn lemma_pow10_positive(k: nat)
    ensures
        pow10(k) > 0,
    decreases k,
{
    if k > 0 {
        lemma_pow10_positive((k - 1) as nat);
    }
}

/// A similarity score between 0.00 and 100.00, in hundredths.
#[derive(Clone, Copy, Debug, PartialEq, Eq, Structural)]
pub struct Similarity {
    pub hundredths: u16,
}

impl Similarity {
    /// The score lies on the scale from 0.00 to 100.00.
    pub open spec fn wf(self) -> bool {
        self.hundredths <= FULL_SCALE
    }

    /// `self` is at or above `threshold`.
    pub open spec fn reaches(self, threshold: Similarity) -> bool {
        self.hundredths >= threshold.hundredths
    }

    /// The score of `hundredths` hundredths, if that is on the scale.
    pub fn from_hundredths(hundredths: u16) -> (r: Option<Similarity>)
        ensures
            hundredths <= FULL_SCALE ==> r == Some(Similarity { hundredths }),
            hundredths > FULL_SCALE ==> r is None,
    {
        if hundredths <= FULL_SCALE {
            Some(Similarity { hundredths })
        } else {
            None
        }
    }

    /// The customary threshold of 70.00.
    pub fn default_threshold() -> (r: Similarity)
        ensures
            r.hundredths == DEFAULT_THRESHOLD,
            r.wf(),
    {
        Similarity { hundredths: DEFAULT_THRESHOLD }
    }

    /// Whether this score is at or above `threshold`: equal counts as reached.
    pub fn at_least(&self, threshold: &Similarity) -> (r: bool)
        ensures
            r == self.reaches(*threshold),
    {
        self.hundredths >= threshold.hundredths
    }

    /// Reads a score from plain decimal notation: digits, optionally with one
    /// point among them. Signs, exponents, blanks and values above 100 are not
    /// scores. Digits beyond the second after the point are dropped.
    pub fn parse(text: &str) -> (r: Option<Similarity>)
        ensures
            match r {
                Some(sim) => score_of(text@) == Some(sim.hundredths as nat) && sim.wf(),
                None => score_of(text@) is None,
            },
    {
        let ghost s = text@;
        if !text.is_ascii() {
            proof {
                assert forall|q: int| !(splits_at(s, q) && in_range_at(s, q)) by {
                    let k = choose|k: int| 0 <= k < s.len() && !is_ascii_char(#[trigger] s[k]);
                    if splits_at(s, q) {
                        if k != q {
                            assert(is_digit(s[k]));
                        }
                    }
                }
            }
            return None;
        }
        let bytes = text.as_bytes();
        proof {
            is_ascii_spec_bytes(text);
        }
        let n: usize = bytes.len();
        assert(n == s.len());
        assert(forall|j: int| 0 <= j < n ==> bytes@[j] == s[j] as u8);
        // The whole part, capped just above the scale.
        let mut whole: u32 = 0;
        let mut i: usize = 0;
        while i < n && bytes[i] != 46u8
            invariant
                0 <= i <= n,
                s == text@,
                n == s.len(),
                n == bytes@.len(),
                is_ascii_chars(s),
                forall|j: int| 0 <= j < n ==> bytes@[j] == s[j] as u8,
                forall|j: int| 0 <= j < i ==> is_digit(#[trigger] s[j]),
                whole <= 101,
                whole <= 100 ==> whole == digits_value(s.take(i as int)),
                whole == 101 ==> digits_value(s.take(i as int)) > 100,
            decreases n - i,
        {
            let b: u8 = bytes[i];
            if b < 48u8 || b > 57u8 {
                proof {
                    let k = i as int;
                    assert(!is_digit(s[k]) && s[k] != '.');
                    assert forall|q: int| !(splits_at(s, q) && in_range_at(s, q)) by {
                        if splits_at(s, q) && k != q {
                            assert(is_digit(s[k]));
                        }
                    }
                }
                return None;
            }
            proof {
                lemma_digits_step(s, i as int);
                assert(digit_value(s[i as int]) == b - 48);
            }
            let d: u32 = (b - 48u8) as u32;
            whole = if whole >= 11 {
                101
            } else {
                let v: u32 = whole * 10 + d;
                if v > 100 {
                    101
                } else {
                    v
                }
            };
            i = i + 1;
        }
        let p: usize = i;
        assert(p < n ==> s[p as int] == '.');
        // The fraction: two digits count, the rest must be digits too.
        let mut tenths: u32 = 0;
        let mut cents: u32 = 0;
        let mut exact: bool = true;
        let mut j: usize = if p < n { p + 1 } else { n };
        while j < n
            invariant
                (p < n && p < j) || (p == n && j == n),
                j <= n,
                s == text@,
                p < n ==> s[p as int] == '.',
                forall|k: int| 0 <= k < p ==> is_digit(#[trigger] s[k]),
                n == s.len(),
                n == bytes@.len(),
                forall|k: int| 0 <= k < n ==> bytes@[k] == s[k] as u8,
                is_ascii_chars(s),
                forall|k: int| p < k < j ==> is_digit(#[trigger] s[k]),
                tenths <= 9,
                cents <= 9,
                tenths == (if j > p + 1 { digit_at(s, p + 1) } else { 0 }),
                cents == (if j > p + 2 { digit_at(s, p + 2) } else { 0 }),
                exact == (forall|k: int| p + 3 <= k < j ==> #[trigger] s[k] == '0'),
            decreases n - j,
        {
            let b: u8 = bytes[j];
            if b < 48u8 || b > 57u8 {
                proof {
                    let k = j as int;
                    assert(!is_digit(s[k]));
                    assert forall|q: int| !(splits_at(s, q) && in_range_at(s, q)) by {
                        if splits_at(s, q) {
                            if q != p {
                                assert(is_digit(s[p as int]));
                            } else {
                                assert(is_digit(s[k]));
                            }
                        }
                    }
                }
                return None;
            }
            proof {
                assert(digit_value(s[j as int]) == b - 48);
            }
            let d: u32 = (b - 48u8) as u32;
            if j == p + 1 {
                tenths = d;
            } else if j == p + 2 {
                cents = d;
            } else if d != 0 {
                exact = false;
            }
            j = j + 1;
        }
        if n == 0 || (n == 1 && p == 0) {
            proof {
                assert forall|q: int| !(splits_at(s, q) && in_range_at(s, q)) by {
                    if splits_at(s, q) && n == 1 {
                        assert(q == 1);
                        assert(is_digit(s[0]));
                    }
                }
            }
            return None;
        }
        proof {
            assert(splits_at(s, p as int));
            lemma_score_at(s, p as int);
            assert(tenths == digit_at(s, p + 1));
            assert(cents == digit_at(s, p + 2));
            assert(exact == exact_at(s, p as int));
        }
        if whole > 100 {
            return None;
        }
        let h: u32 = whole * 100 + tenths * 10 + cents;
        assert(h == hundredths_at(s, p as int));
        if h < 10_000 || (h == 10_000 && exact) {
            Some(Similarity { hundredths: h as u16 })
        } else {
            None
        }
    }
}

} // verus!
