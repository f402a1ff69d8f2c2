//! Fixed-point decimal numbers for the numeric entry widgets.
//!
//! A [`Num`] holds an integer count of thousandths (`milli`), giving three
//! decimal places — enough for the simulation fields the overlay edits.
//! [`Num::to_decimal`] renders the canonical decimal form (no sign on zero,
//! no trailing fractional zeros, no trailing dot), and [`Num::parse_decimal`]
//! reads a decimal numeral back, truncating any digits beyond the third
//! fractional place.  `lemma_parse_num_str` proves the round trip: parsing
//! a rendered value yields the value back, exactly.

use vstd::prelude::*;
use vstd::string::StrSliceExecFns;

verus! {

/// Largest magnitude a `Num` may hold, in thousandths: one short of 10^15,
/// so the integer part always stays below 10^12 units.
pub const MAX_MILLI: i64 = 999_999_999_999_999;

/// Integer-part bound in whole units: a parsed integer part must be below
/// 10^12 for the scaled value to stay within `MAX_MILLI`.
pub const MAX_UNITS: u64 = 1_000_000_000_000;

pub open spec fn is_digit_char(c: char) -> bool {
    c == '0' || c == '1' || c == '2' || c == '3' || c == '4' || c == '5' || c == '6' || c == '7'
        || c == '8' || c == '9'
}

pub open spec fn digit_val(c: char) -> int {
    if c == '0' {
        0
    } else if c == '1' {
        1
    } else if c == '2' {
        2
    } else if c == '3' {
        3
    } else if c == '4' {
        4
    } else if c == '5' {
        5
    } else if c == '6' {
        6
    } else if c == '7' {
        7
    } else if c == '8' {
        8
    } else if c == '9' {
        9
    } else {
        0
    }
}

pub open spec fn digit_char(d: int) -> char {
    if d == 0 {
        '0'
    } else if d == 1 {
        '1'
    } else if d == 2 {
        '2'
    } else if d == 3 {
        '3'
    } else if d == 4 {
        '4'
    } else if d == 5 {
        '5'
    } else if d == 6 {
        '6'
    } else if d == 7 {
        '7'
    } else if d == 8 {
        '8'
    } else {
        '9'
    }
}

/// Every character of `s` is a decimal digit.
pub open spec fn is_digits(s: Seq<char>) -> bool {
    forall|i: int| 0 <= i < s.len() ==> is_digit_char(#[trigger] s[i])
}

/// The number denoted by a digit string, most significant digit first.
pub open spec fn digits_val(s: Seq<char>) -> int
    decreases s.len(),
{
    if s.len() == 0 {
        0
    } else {
        digits_val(s.drop_last()) * 10 + digit_val(s.last())
    }
}

/// The canonical digit string of a non-negative integer.
pub open spec fn dec_digits(n: int) -> Seq<char>
    decreases n,
{
    if n < 10 {
        seq![digit_char(n)]
    } else {
        dec_digits(n / 10).push(digit_char(n % 10))
    }
}

/// The canonical fractional digit string of `frac` thousandths
/// (`1 <= frac <= 999`): three places with trailing zeros stripped.
pub open spec fn frac_digits(frac: int) -> Seq<char> {
    let h = digit_char(frac / 100);
    let t = digit_char((frac / 10) % 10);
    let o = digit_char(frac % 10);
    if frac % 10 != 0 {
        seq![h, t, o]
    } else if (frac / 10) % 10 != 0 {
        seq![h, t]
    } else {
        seq![h]
    }
}

/// The canonical decimal rendering of `m` thousandths.
pub open spec fn num_str(m: int) -> Seq<char> {
    let mag = if m < 0 {
        -m
    } else {
        m
    };
    let sign: Seq<char> = if m < 0 {
        seq!['-']
    } else {
        Seq::<char>::empty()
    };
    let whole = sign + dec_digits(mag / 1000);
    if mag % 1000 == 0 {
        whole
    } else {
        whole + seq!['.'] + frac_digits(mag % 1000)
    }
}

/// Index of the first `'.'` in `s`, or `-1` if there is none.
pub open spec fn find_dot(s: Seq<char>) -> int
    decreases s.len(),
{
    if s.len() == 0 {
        -1
    } else if s[0] == '.' {
        0
    } else {
        let r = find_dot(s.subrange(1, s.len() as int));
        if r == -1 {
            -1
        } else {
            r + 1
        }
    }
}

/// Scale factor that pads a fractional digit string of length `l` (at most 3)
/// out to thousandths.
pub open spec fn pad_mult(l: int) -> int {
    if l == 0 {
        1000
    } else if l == 1 {
        100
    } else if l == 2 {
        10
    } else {
        1
    }
}

/// What `parse_decimal` accepts and returns, in thousandths: an optional
/// minus sign, an integer part, and an optional fractional part after a
/// single dot, with at least one digit somewhere.  Fractional digits beyond
/// the third are read but ignored.  The integer part must stay below
/// `MAX_UNITS`.
pub open spec fn body_of(s: Seq<char>) -> Seq<char> {
    if s.len() > 0 && s[0] == '-' {
        s.subrange(1, s.len() as int)
    } else {
        s
    }
}

pub open spec fn spec_parse(s: Seq<char>) -> Option<int> {
    let neg = s.len() > 0 && s[0] == '-';
    let body = body_of(s);
    let dot = find_dot(body);
    let ip = if dot == -1 {
        body
    } else {
        body.subrange(0, dot)
    };
    let fp = if dot == -1 {
        Seq::<char>::empty()
    } else {
        body.subrange(dot + 1, body.len() as int)
    };
    if (ip.len() > 0 || fp.len() > 0) && is_digits(ip) && is_digits(fp) && digits_val(ip)
        < MAX_UNITS {
        let f3 = if fp.len() >= 3 {
            fp.subrange(0, 3)
        } else {
            fp
        };
        let mag = digits_val(ip) * 1000 + digits_val(f3) * pad_mult(f3.len() as int);
        Some(
            if neg {
                -mag
            } else {
                mag
            },
        )
    } else {
        None
    }
}

/// 10 raised to a non-negative power.
pub open spec fn pow10(k: int) -> int
    decreases k,
{
    if k <= 0 {
        1
    } else {
        10 * pow10(k - 1)
    }
}

pub proof fn lemma_pow10_pos(k: int)
    ensures
        pow10(k) >= 1,
    decreases k,
{
    if k > 0 {
        lemma_pow10_pos(k - 1);
    }
}

pub proof fn lemma_digits_val_nonneg(s: Seq<char>)
    ensures
        digits_val(s) >= 0,
    decreases s.len(),
{
    if s.len() > 0 {
        lemma_digits_val_nonneg(s.drop_last());
    }
}

/// Splitting a digit string splits its value positionally.
pub proof fn lemma_digits_val_append(a: Seq<char>, b: Seq<char>)
    ensures
        digits_val(a + b) == digits_val(a) * pow10(b.len() as int) + digits_val(b),
    decreases b.len(),
{
    if b.len() == 0 {
        assert(a + b =~= a);
    } else {
        lemma_digits_val_append(a, b.drop_last());
        assert((a + b).drop_last() =~= a + b.drop_last());
        assert((a + b).last() == b.last());
        assert(digits_val(a + b) == digits_val(a + b.drop_last()) * 10 + digit_val(b.last()));
        assert(pow10(b.len() as int) == 10 * pow10(b.len() - 1));
        let va = digits_val(a);
        let p1 = pow10(b.len() - 1);
        assert((va * p1) * 10 == va * (10 * p1)) by (nonlinear_arith);
    }
}

/// A digit string is worth at least any of its prefixes.
pub proof fn lemma_digits_val_prefix(s: Seq<char>, k: int)
    requires
        0 <= k <= s.len(),
    ensures
        digits_val(s) >= digits_val(s.subrange(0, k)),
{
    let a = s.subrange(0, k);
    let b = s.subrange(k, s.len() as int);
    assert(s =~= a + b);
    lemma_digits_val_append(a, b);
    lemma_digits_val_nonneg(a);
    lemma_digits_val_nonneg(b);
    lemma_pow10_pos(b.len() as int);
    assert(digits_val(a) * pow10(b.len() as int) >= digits_val(a) * 1) by (nonlinear_arith)
        requires
            digits_val(a) >= 0,
            pow10(b.len() as int) >= 1,
    ;
}

/// The canonical digit string of `n` denotes `n`, is non-empty, and holds
/// digits only.
pub proof fn lemma_dec_digits(n: int)
    requires
        n >= 0,
    ensures
        dec_digits(n).len() >= 1,
        is_digits(dec_digits(n)),
        digits_val(dec_digits(n)) == n,
    decreases n,
{
    if n < 10 {
        let s = dec_digits(n);
        assert(s =~= seq![digit_char(n)]);
        assert(s.len() == 1);
        assert(s.last() == digit_char(n));
        assert(s.drop_last() =~= Seq::<char>::empty());
        assert(digits_val(s.drop_last()) == 0);
        assert(digits_val(s) == digits_val(s.drop_last()) * 10 + digit_val(s.last()));
    } else {
        lemma_dec_digits(n / 10);
        let p = dec_digits(n / 10);
        let c = digit_char(n % 10);
        let s = dec_digits(n);
        assert(s == p.push(c));
        assert(s.drop_last() =~= p);
        assert(s.last() == c);
        assert(digits_val(s) == digits_val(p) * 10 + digit_val(c));
        assert(forall|i: int|
            0 <= i < s.len() ==> is_digit_char(#[trigger] s[i]) || i == s.len() - 1);
    }
}

/// The first-dot index is either absent or a dot position inside the string.
pub proof fn lemma_find_dot_range(s: Seq<char>)
    ensures
        find_dot(s) == -1 || (0 <= find_dot(s) < s.len() && s[find_dot(s)] == '.'),
    decreases s.len(),
{
    if s.len() > 0 && s[0] != '.' {
        lemma_find_dot_range(s.subrange(1, s.len() as int));
    }
}

/// If no dot occurs at an index at or below `k`, the first dot (if any) is
/// beyond `k`.
pub proof fn lemma_find_dot_lower(s: Seq<char>, k: int)
    requires
        0 <= k < s.len(),
        forall|j: int| 0 <= j <= k ==> s[j] != '.',
    ensures
        find_dot(s) == -1 || find_dot(s) > k,
    decreases s.len(),
{
    lemma_find_dot_range(s);
    if s.len() > 0 && s[0] != '.' {
        let t = s.subrange(1, s.len() as int);
        lemma_find_dot_range(t);
        if k >= 1 {
            assert(forall|j: int| 0 <= j <= k - 1 ==> t[j] != '.');
            lemma_find_dot_lower(t, k - 1);
        }
    }
}

/// A string with no dot before position `k` and a dot (or the end) at `k`
/// has its first dot exactly there.
pub proof fn lemma_find_dot_at(s: Seq<char>, k: int)
    requires
        0 <= k <= s.len(),
        forall|j: int| 0 <= j < k ==> s[j] != '.',
        k == s.len() || s[k] == '.',
    ensures
        find_dot(s) == if k == s.len() {
            -1
        } else {
            k
        },
    decreases s.len(),
{
    if s.len() == 0 {
    } else if s[0] == '.' {
    } else {
        let t = s.subrange(1, s.len() as int);
        assert(forall|j: int| 0 <= j < k - 1 ==> t[j] != '.');
        lemma_find_dot_at(t, k - 1);
    }
}

/// The canonical rendering is never empty and never ends in a dot — its
/// last character is always a digit.
pub proof fn lemma_num_str_form(m: int)
    ensures
        num_str(m).len() > 0,
        is_digit_char(num_str(m).last()),
{
    let mag = if m < 0 {
        -m
    } else {
        m
    };
    let units = mag / 1000;
    let frac = mag % 1000;
    lemma_dec_digits(units);
    let s = num_str(m);
    if frac == 0 {
        assert(s.last() == dec_digits(units).last());
        assert(is_digit_char(dec_digits(units)[dec_digits(units).len() - 1]));
    } else {
        assert(s.last() == frac_digits(frac).last());
        assert(0 <= frac / 100 <= 9 && 0 <= (frac / 10) % 10 <= 9 && 0 <= frac % 10 <= 9);
    }
}

/// Round trip: parsing the canonical rendering of a value in range yields
/// exactly that value.
pub proof fn lemma_parse_num_str(m: int)
    requires
        -MAX_MILLI <= m <= MAX_MILLI,
    ensures
        spec_parse(num_str(m)) == Some(m),
{
    let mag = if m < 0 {
        -m
    } else {
        m
    };
    let units = mag / 1000;
    let frac = mag % 1000;
    lemma_dec_digits(units);
    let dec = dec_digits(units);
    let fd = frac_digits(frac);
    let tail: Seq<char> = if frac == 0 {
        Seq::<char>::empty()
    } else {
        seq!['.'] + fd
    };
    let bodyseq = dec + tail;
    let s = num_str(m);
    if m < 0 {
        assert(s =~= seq!['-'] + bodyseq);
        assert(s[0] == '-');
        assert(body_of(s) =~= bodyseq);
    } else {
        assert(s =~= bodyseq);
        assert(s[0] == dec[0]);
        assert(body_of(s) =~= bodyseq);
    }
    let neg = s.len() > 0 && s[0] == '-';
    assert(neg == (m < 0));
    // Fractional digit facts.
    let h = frac / 100;
    let t = (frac / 10) % 10;
    let o = frac % 10;
    assert(0 <= h <= 9 && 0 <= t <= 9 && 0 <= o <= 9);
    assert(digit_val(digit_char(h)) == h);
    assert(digit_val(digit_char(t)) == t);
    assert(digit_val(digit_char(o)) == o);
    if frac == 0 {
        assert(forall|j: int| 0 <= j < bodyseq.len() ==> #[trigger] bodyseq[j] != '.');
        lemma_find_dot_at(bodyseq, bodyseq.len() as int);
        assert(find_dot(bodyseq) == -1);
        assert(bodyseq =~= dec);
        assert(digits_val(bodyseq) == units);
        assert(units < MAX_UNITS);
        let fp = Seq::<char>::empty();
        assert(is_digits(fp));
        assert(digits_val(fp) == 0);
        assert(units * 1000 + 0 * pad_mult(0) == mag);
        assert(spec_parse(s) == Some(m));
    } else {
        // The fractional digit string denotes frac once padded.
        assert(is_digits(fd)) by {
            assert(forall|j: int|
                0 <= j < fd.len() ==> is_digit_char(#[trigger] fd[j]));
        };
        assert(digits_val(fd) * pad_mult(fd.len() as int) == frac) by {
            assert(frac == 100 * h + 10 * t + o);
            let s1 = seq![digit_char(h)];
            let s2 = seq![digit_char(h), digit_char(t)];
            let s3 = seq![digit_char(h), digit_char(t), digit_char(o)];
            assert(s1.drop_last() =~= Seq::<char>::empty());
            assert(s1.last() == digit_char(h));
            assert(digits_val(s1) == digits_val(s1.drop_last()) * 10 + digit_val(s1.last()));
            assert(digits_val(s1) == h);
            assert(s2.drop_last() =~= s1);
            assert(s2.last() == digit_char(t));
            assert(digits_val(s2) == digits_val(s2.drop_last()) * 10 + digit_val(s2.last()));
            assert(digits_val(s2) == h * 10 + t);
            assert(s3.drop_last() =~= s2);
            assert(s3.last() == digit_char(o));
            assert(digits_val(s3) == digits_val(s3.drop_last()) * 10 + digit_val(s3.last()));
            assert(digits_val(s3) == (h * 10 + t) * 10 + o);
            if o != 0 {
                assert(fd == s3);
            } else if t != 0 {
                assert(fd == s2);
            } else {
                assert(fd == s1);
            }
        };
        assert(forall|j: int| 0 <= j < dec.len() ==> #[trigger] bodyseq[j] != '.');
        assert(bodyseq[dec.len() as int] == '.');
        lemma_find_dot_at(bodyseq, dec.len() as int);
        assert(find_dot(bodyseq) == dec.len() as int);
        let dot = dec.len() as int;
        assert(bodyseq.subrange(0, dot) =~= dec);
        assert(bodyseq.subrange(dot + 1, bodyseq.len() as int) =~= fd);
        assert(units < MAX_UNITS);
        let fp = fd;
        let f3 = if fp.len() >= 3 {
            fp.subrange(0, 3)
        } else {
            fp
        };
        assert(f3 =~= fd);
        assert(units * 1000 + digits_val(f3) * pad_mult(f3.len() as int) == mag);
        assert(spec_parse(s) == Some(m));
    }
}

/// A decimal number held as a count of thousandths.
#[derive(Clone, Copy, PartialEq, Eq, Structural, Debug)]
pub struct Num {
    milli: i64,
}

impl Num {
    /// The value in thousandths, as a mathematical integer.
    pub closed spec fn value(self) -> int {
        self.milli as int
    }

    pub closed spec fn wf(self) -> bool {
        -MAX_MILLI <= self.milli <= MAX_MILLI
    }

    pub fn zero() -> (r: Num)
        ensures
            r.value() == 0,
            r.wf(),
    {
        Num { milli: 0 }
    }

    pub fn from_milli(m: i64) -> (r: Num)
        requires
            -MAX_MILLI <= m <= MAX_MILLI,
        ensures
            r.value() == m as int,
            r.wf(),
    {
        Num { milli: m }
    }

    pub fn milli(&self) -> (r: i64)
        ensures
            r as int == self.value(),
            self.wf() ==> -MAX_MILLI <= r <= MAX_MILLI,
    {
        self.milli
    }

    /// A well-formed value's magnitude stays within `MAX_MILLI`.
    pub proof fn lemma_wf_bound(self)
        requires
            self.wf(),
        ensures
            -MAX_MILLI <= self.value() <= MAX_MILLI,
    {
    }

    /// Render the canonical decimal form of this value.
    pub fn to_decimal(&self) -> (r: String)
        requires
            self.wf(),
        ensures
            r@ == num_str(self.value()),
    {
        let mut s = String::new();
        let mag: u64 = if self.milli < 0 {
            crate::strutil::string_push(&mut s, '-');
            (-self.milli) as u64
        } else {
            self.milli as u64
        };
        let ghost sign: Seq<char> = if self.milli < 0 {
            seq!['-']
        } else {
            Seq::<char>::empty()
        };
        assert(s@ =~= sign);
        let units: u64 = mag / 1000;
        let frac: u64 = mag % 1000;
        push_dec_digits(&mut s, units);
        assert(s@ =~= sign + dec_digits(units as int));
        if frac > 0 {
            crate::strutil::string_push(&mut s, '.');
            let h = frac / 100;
            let t = (frac / 10) % 10;
            let o = frac % 10;
            crate::strutil::string_push(&mut s, digit_to_char(h));
            if o != 0 {
                crate::strutil::string_push(&mut s, digit_to_char(t));
                crate::strutil::string_push(&mut s, digit_to_char(o));
            } else if t != 0 {
                crate::strutil::string_push(&mut s, digit_to_char(t));
            }
            assert(s@ =~= sign + dec_digits(units as int) + seq!['.'] + frac_digits(
                frac as int,
            ));
        }
        assert(s@ =~= num_str(self.value()));
        s
    }

    /// Parse a decimal numeral, accepting exactly what [`spec_parse`]
    /// describes and returning the value it denotes.
    #[verifier::rlimit(60)]
    pub fn parse_decimal(s: &str) -> (r: Option<Num>)
        ensures
            match r {
                Some(n) => spec_parse(s@) == Some(n.value()) && n.wf(),
                None => spec_parse(s@) is None,
            },
    {
        let len = s.unicode_len();
        let mut i: usize = 0;
        let mut neg = false;
        if len > 0 && s.get_char(0) == '-' {
            neg = true;
            i = 1;
        }
        let start = i;
        let ghost bs = i as int;
        let ghost body = s@.subrange(bs, len as int);
        proof {
            assert(neg == (s@.len() > 0 && s@[0] == '-'));
            assert(body == body_of(s@));
        }
        // Integer part: digits up to the first dot or the end.
        let mut units: u64 = 0;
        let mut saw_dot = false;
        while i < len
            invariant_except_break
                len == s@.len(),
                bs <= i <= len,
                bs == start as int,
                start <= len,
                !saw_dot,
            invariant
                neg == (s@.len() > 0 && s@[0] == '-'),
                body == s@.subrange(bs, len as int),
                body == body_of(s@),
                bs == if neg { 1int } else { 0int },
                forall|j: int| 0 <= j < i - bs ==> #[trigger] body[j] != '.',
                forall|j: int| 0 <= j < i - bs ==> is_digit_char(#[trigger] body[j]),
                units == digits_val(body.subrange(0, i - bs)),
                units < MAX_UNITS,
            ensures
                bs <= i <= len,
                saw_dot ==> i < len && body[i - bs] == '.',
                !saw_dot ==> i == len,
            decreases len - i,
        {
            let c = s.get_char(i);
            if c == '.' {
                saw_dot = true;
                break;
            }
            let ghost k = i - bs;
            let ghost pre = body.subrange(0, k);
            match char_to_digit(c) {
                None => {
                    proof {
                        lemma_parse_invalid_at(s@, k);
                    }
                    return None;
                },
                Some(d) => {
                    proof {
                        assert(body.subrange(0, k + 1) =~= pre.push(c));
                        assert(pre.push(c).drop_last() =~= pre);
                        lemma_digits_val_nonneg(pre);
                    }
                    let nu: u64 = units * 10 + (d as u64);
                    if nu >= MAX_UNITS {
                        proof {
                            assert(digits_val(body.subrange(0, k + 1)) == units * 10 + d);
                            lemma_parse_overflow_at(s@, k + 1);
                        }
                        return None;
                    }
                    units = nu;
                },
            }
            i += 1;
        }
        if !saw_dot {
            // No fractional part.
            if i == start {
                proof {
                    lemma_parse_trivial(s@);
                }
                return None;
            }
            proof {
                lemma_find_dot_at(body, body.len() as int);
                assert(body.subrange(0, body.len() as int) =~= body);
                assert(is_digits(body));
            }
            let mag: u64 = units * 1000;
            assert(mag <= MAX_MILLI as u64);
            let milli: i64 = if neg {
                -(mag as i64)
            } else {
                mag as i64
            };
            return Some(Num { milli });
        }
        // body[i - bs] is the first dot.
        let ghost dot = i - bs;
        proof {
            lemma_find_dot_at(body, dot);
            assert(find_dot(body) == dot);
        }
        let had_int = i > start;
        i += 1;
        let fstart = i;
        let ghost fs = i as int;
        let ghost ip = body.subrange(0, dot);
        let ghost fp = body.subrange(dot + 1, body.len() as int);
        proof {
            assert(fp.len() == len - fs);
        }
        let mut frac: u64 = 0;
        let mut fcnt: u64 = 0;
        while i < len
            invariant
                len == s@.len(),
                fs <= i <= len,
                1 <= fs,
                dot == fs - 1 - bs,
                0 <= dot < body.len(),
                neg == (s@.len() > 0 && s@[0] == '-'),
                body == s@.subrange(bs, len as int),
                body == body_of(s@),
                bs == if neg { 1int } else { 0int },
                find_dot(body) == dot,
                ip == body.subrange(0, dot),
                fp == body.subrange(dot + 1, body.len() as int),
                fp.len() == len - fs,
                fstart == fs,
                had_int <==> ip.len() > 0,
                is_digits(ip),
                units == digits_val(ip),
                units < MAX_UNITS,
                forall|j: int| 0 <= j < i - fs ==> is_digit_char(#[trigger] fp[j]),
                fcnt == if i - fs < 3 { i - fs } else { 3int },
                frac == digits_val(fp.subrange(0, fcnt as int)),
                fcnt == 0 ==> frac == 0,
                fcnt == 1 ==> frac < 10,
                fcnt == 2 ==> frac < 100,
                frac < 1000,
                fcnt <= 3,
            decreases len - i,
        {
            let c = s.get_char(i);
            let ghost k = i - fs;
            match char_to_digit(c) {
                None => {
                    proof {
                        lemma_parse_bad_frac(s@, dot, k);
                    }
                    return None;
                },
                Some(d) => {
                    if fcnt < 3 {
                        proof {
                            let pre = fp.subrange(0, fcnt as int);
                            assert(fp.subrange(0, fcnt + 1) =~= pre.push(c));
                            assert(pre.push(c).drop_last() =~= pre);
                            lemma_digits_val_nonneg(pre);
                        }
                        frac = frac * 10 + (d as u64);
                        fcnt += 1;
                    }
                },
            }
            i += 1;
        }
        if !had_int && fstart >= len {
            proof {
                lemma_parse_trivial(s@);
            }
            return None;
        }
        let padm: u64 = if fcnt == 0 {
            1000
        } else if fcnt == 1 {
            100
        } else if fcnt == 2 {
            10
        } else {
            1
        };
        proof {
            let f3 = if fp.len() >= 3 {
                fp.subrange(0, 3)
            } else {
                fp
            };
            assert(f3 =~= fp.subrange(0, fcnt as int));
            assert(padm == pad_mult(f3.len() as int));
            assert(is_digits(fp));
        }
        assert(frac * padm <= 999);
        let mag: u64 = units * 1000 + frac * padm;
        assert(mag <= MAX_MILLI as u64);
        let milli: i64 = if neg {
            -(mag as i64)
        } else {
            mag as i64
        };
        Some(Num { milli })
    }
}

/// A numeral with a non-digit in its integer part (before any dot) is
/// rejected.
proof fn lemma_parse_invalid_at(s: Seq<char>, k: int)
    requires
        0 <= k < body_of(s).len(),
        forall|j: int| 0 <= j < k ==> #[trigger] body_of(s)[j] != '.',
        body_of(s)[k] != '.',
        !is_digit_char(body_of(s)[k]),
    ensures
        spec_parse(s) is None,
{
    let body = body_of(s);
    assert(forall|j: int| 0 <= j <= k ==> #[trigger] body[j] != '.');
    lemma_find_dot_lower(body, k);
    lemma_find_dot_range(body);
    let dot = find_dot(body);
    if dot == -1 {
        assert(!is_digits(body));
    } else {
        assert(dot > k);
        let ip = body.subrange(0, dot);
        assert(ip[k] == body[k]);
        assert(!is_digits(ip));
    }
}

/// A numeral whose integer part reaches `MAX_UNITS` within a digit prefix is
/// rejected.
proof fn lemma_parse_overflow_at(s: Seq<char>, k: int)
    requires
        0 < k <= body_of(s).len(),
        forall|j: int| 0 <= j < k ==> #[trigger] body_of(s)[j] != '.',
        forall|j: int| 0 <= j < k ==> is_digit_char(#[trigger] body_of(s)[j]),
        digits_val(body_of(s).subrange(0, k)) >= MAX_UNITS,
    ensures
        spec_parse(s) is None,
{
    let body = body_of(s);
    assert(forall|j: int| 0 <= j <= k - 1 ==> #[trigger] body[j] != '.');
    lemma_find_dot_lower(body, k - 1);
    lemma_find_dot_range(body);
    let dot = find_dot(body);
    if dot == -1 {
        if is_digits(body) {
            lemma_digits_val_prefix(body, k);
        }
    } else {
        assert(dot >= k);
        let ip = body.subrange(0, dot);
        assert(ip.subrange(0, k) =~= body.subrange(0, k));
        if is_digits(ip) {
            lemma_digits_val_prefix(ip, k);
        }
    }
}

/// A numeral with no digit anywhere — an empty body, or a lone dot — is
/// rejected.
proof fn lemma_parse_trivial(s: Seq<char>)
    requires
        body_of(s).len() == 0 || (body_of(s).len() == 1 && body_of(s)[0] == '.'),
    ensures
        spec_parse(s) is None,
{
    let body = body_of(s);
    if body.len() == 0 {
    } else {
        assert(find_dot(body) == 0);
        assert(body.subrange(0, 0).len() == 0);
        assert(body.subrange(1, 1).len() == 0);
    }
}

/// A numeral with a non-digit after the dot is rejected.
proof fn lemma_parse_bad_frac(s: Seq<char>, dot: int, k: int)
    requires
        0 <= dot < body_of(s).len(),
        find_dot(body_of(s)) == dot,
        0 <= k < body_of(s).len() - dot - 1,
        !is_digit_char(body_of(s).subrange(dot + 1, body_of(s).len() as int)[k]),
    ensures
        spec_parse(s) is None,
{
    let body = body_of(s);
    let fp = body.subrange(dot + 1, body.len() as int);
    assert(!is_digits(fp));
}


/// Renders a digit and proves it renders canonically.
fn digit_to_char(d: u64) -> (c: char)
    requires
        d < 10,
    ensures
        c == digit_char(d as int),
        is_digit_char(c),
{
    if d == 0 {
        '0'
    } else if d == 1 {
        '1'
    } else if d == 2 {
        '2'
    } else if d == 3 {
        '3'
    } else if d == 4 {
        '4'
    } else if d == 5 {
        '5'
    } else if d == 6 {
        '6'
    } else if d == 7 {
        '7'
    } else if d == 8 {
        '8'
    } else {
        '9'
    }
}

/// Reads a digit character back as its value.
fn char_to_digit(c: char) -> (r: Option<u8>)
    ensures
        r is Some <==> is_digit_char(c),
        r is Some ==> r->0 as int == digit_val(c) && r->0 < 10,
{
    match c {
        '0' => Some(0),
        '1' => Some(1),
        '2' => Some(2),
        '3' => Some(3),
        '4' => Some(4),
        '5' => Some(5),
        '6' => Some(6),
        '7' => Some(7),
        '8' => Some(8),
        '9' => Some(9),
        _ => None,
    }
}

/// Appends the canonical digit string of `n` to `s`.
fn push_dec_digits(s: &mut String, n: u64)
    ensures
        final(s)@ == old(s)@ + dec_digits(n as int),
    decreases n,
{
    if n < 10 {
        crate::strutil::string_push(s, digit_to_char(n));
        assert(final(s)@ =~= old(s)@ + dec_digits(n as int));
    } else {
        push_dec_digits(s, n / 10);
        crate::strutil::string_push(s, digit_to_char(n % 10));
        assert(final(s)@ =~= old(s)@ + dec_digits(n as int));
    }
}

} // verus!
