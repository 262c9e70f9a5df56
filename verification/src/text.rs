//! Verified text helpers: character-wise string equality, ASCII
//! case-insensitive equality, and decimal parsers for configuration scalars.
//!
//! Numbers use their usual decimal notation with an optional leading `+`;
//! durations are written as seconds with an optional fraction of at most
//! three digits (`"1.5"` meaning 1500 milliseconds).

use vstd::prelude::*;

verus! {

/// Two characters are equal up to ASCII case.
pub open spec fn chars_eq_ci(x: char, y: char) -> bool {
    ||| x == y
    ||| (97 <= x as u32 <= 122 && x as u32 == y as u32 + 32)
    ||| (65 <= x as u32 <= 90 && x as u32 + 32 == y as u32)
}

/// Two character sequences are equal up to ASCII case.
pub open spec fn seq_eq_ci(a: Seq<char>, b: Seq<char>) -> bool {
    a.len() == b.len() && (forall|i: int| 0 <= i < a.len() ==> chars_eq_ci(a[i], b[i]))
}

fn char_eq_ci(x: char, y: char) -> (r: bool)
    ensures
        r == chars_eq_ci(x, y),
{
    let xu = x as u32;
    let yu = y as u32;
    xu == yu || (97 <= xu && xu <= 122 && yu + 32 == xu) || (65 <= xu && xu <= 90 && xu + 32 == yu)
}

/// Character-wise equality of two strings.
pub fn str_eq(a: &str, b: &str) -> (r: bool)
    ensures
        r == (a@ == b@),
{
    let la = a.unicode_len();
    let lb = b.unicode_len();
    if la != lb {
        return false;
    }
    let mut i: usize = 0;
    while i < la
        invariant
            i <= la,
            la == a@.len(),
            lb == b@.len(),
            la == lb,
            forall|j: int| 0 <= j < i ==> a@[j] == b@[j],
        decreases la - i,
    {
        if a.get_char(i) != b.get_char(i) {
            return false;
        }
        i = i + 1;
    }
    proof {
        assert(a@ =~= b@);
    }
    true
}

/// Equality of two strings up to ASCII case.
pub fn str_eq_ci(a: &str, b: &str) -> (r: bool)
    ensures
        r == seq_eq_ci(a@, b@),
{
    let la = a.unicode_len();
    let lb = b.unicode_len();
    if la != lb {
        return false;
    }
    let mut i: usize = 0;
    while i < la
        invariant
            i <= la,
            la == a@.len(),
            lb == b@.len(),
            la == lb,
            forall|j: int| 0 <= j < i ==> chars_eq_ci(a@[j], b@[j]),
        decreases la - i,
    {
        if !char_eq_ci(a.get_char(i), b.get_char(i)) {
            return false;
        }
        i = i + 1;
    }
    true
}

/// Whether a character is a decimal digit.
pub open spec fn is_digit_char(c: char) -> bool {
    48 <= c as u32 <= 57
}

/// The numeric value of a digit character.
pub open spec fn digit_of(c: char) -> nat {
    (c as u32 - 48) as nat
}

/// Whether every character of a sequence is a decimal digit.
pub open spec fn all_digits(s: Seq<char>) -> bool {
    forall|i: int| 0 <= i < s.len() ==> is_digit_char(s[i])
}

/// The value of a digit sequence read in base ten.
pub open spec fn dec_val(s: Seq<char>) -> nat
    decreases s.len(),
{
    if s.len() == 0 {
        0
    } else {
        dec_val(s.drop_last()) * 10 + digit_of(s.last())
    }
}

/// Reading more digits never decreases the value.
proof fn lemma_dec_val_take_le(t: Seq<char>, j: int)
    requires
        0 <= j <= t.len(),
    ensures
        dec_val(t.take(j)) <= dec_val(t),
    decreases t.len() - j,
{
    if j < t.len() {
        assert(t.take(j + 1).drop_last() =~= t.take(j));
        assert(dec_val(t.take(j + 1)) == dec_val(t.take(j)) * 10 + digit_of(t.take(j + 1).last()));
        assert(dec_val(t.take(j)) * 10 >= dec_val(t.take(j)));
        lemma_dec_val_take_le(t, j + 1);
        assert(t.take(t.len() as int) =~= t);
    } else {
        assert(t.take(j) =~= t);
    }
}

/// Parses the digit run `s[from..to]`, if it is one whose value fits in u64.
fn parse_digits_u64(s: &str, from: usize, to: usize) -> (r: Option<u64>)
    requires
        from <= to <= s@.len(),
    ensures
        ({
            let t = s@.subrange(from as int, to as int);
            match r {
                Some(v) => all_digits(t) && v == dec_val(t),
                None => !all_digits(t) || dec_val(t) > u64::MAX,
            }
        }),
{
    let ghost t = s@.subrange(from as int, to as int);
    let mut val: u64 = 0;
    let mut i: usize = from;
    while i < to
        invariant
            from <= i <= to <= s@.len(),
            t == s@.subrange(from as int, to as int),
            all_digits(t.take(i - from)),
            val == dec_val(t.take(i - from)),
        decreases to - i,
    {
        let c = s.get_char(i);
        let cu = c as u32;
        proof {
            assert(t[i - from] == s@[i as int]);
        }
        if cu < 48 || cu > 57 {
            return None;
        }
        let d: u64 = (cu - 48) as u64;
        let ghost j = i - from;
        proof {
            assert(t.take(j + 1).drop_last() =~= t.take(j));
            assert(t.take(j + 1).last() == t[j]);
            assert(dec_val(t.take(j + 1)) == dec_val(t.take(j)) * 10 + digit_of(t[j]));
        }
        let stepped = match val.checked_mul(10) {
            Some(m) => m.checked_add(d),
            None => None,
        };
        match stepped {
            Some(next) => {
                val = next;
                i = i + 1;
                proof {
                    assert(all_digits(t.take(j + 1)));
                }
            },
            None => {
                proof {
                    assert(dec_val(t.take(j + 1)) > u64::MAX);
                    lemma_dec_val_take_le(t, j + 1);
                }
                return None;
            },
        }
    }
    proof {
        assert(t.take(to - from) =~= t);
    }
    Some(val)
}

/// Strips one leading `+` sign.
pub open spec fn strip_plus(s: Seq<char>) -> Seq<char> {
    if s.len() >= 1 && s[0] == '+' {
        s.subrange(1, s.len() as int)
    } else {
        s
    }
}

/// What parsing a `u32` from text yields: an optional `+`, then at least one
/// digit, with a value in range.
pub open spec fn parse_u32_spec(s: Seq<char>) -> Option<u32> {
    let t = strip_plus(s);
    if t.len() == 0 || !all_digits(t) || dec_val(t) > u32::MAX {
        None
    } else {
        Some(dec_val(t) as u32)
    }
}

/// Parses a `u32` from its decimal notation.
pub fn parse_u32(s: &str) -> (r: Option<u32>)
    ensures
        r == parse_u32_spec(s@),
{
    let n = s.unicode_len();
    let mut start: usize = 0;
    if n >= 1 && s.get_char(0) == '+' {
        start = 1;
    }
    proof {
        assert(s@.subrange(start as int, n as int) =~= strip_plus(s@));
    }
    if start >= n {
        return None;
    }
    match parse_digits_u64(s, start, n) {
        Some(v) => {
            if v > 0xffff_ffff {
                None
            } else {
                Some(v as u32)
            }
        },
        None => None,
    }
}

/// What parsing a `usize` from text yields: an optional `+`, then at least
/// one digit, with a value in range.
pub open spec fn parse_usize_spec(s: Seq<char>) -> Option<usize> {
    let t = strip_plus(s);
    if t.len() == 0 || !all_digits(t) || dec_val(t) > usize::MAX {
        None
    } else {
        Some(dec_val(t) as usize)
    }
}

/// Parses a `usize` from its decimal notation.
pub fn parse_usize(s: &str) -> (r: Option<usize>)
    ensures
        r == parse_usize_spec(s@),
{
    let n = s.unicode_len();
    let mut start: usize = 0;
    if n >= 1 && s.get_char(0) == '+' {
        start = 1;
    }
    proof {
        assert(s@.subrange(start as int, n as int) =~= strip_plus(s@));
    }
    if start >= n {
        return None;
    }
    match parse_digits_u64(s, start, n) {
        Some(v) => {
            if v > usize::MAX as u64 {
                None
            } else {
                Some(v as usize)
            }
        },
        None => None,
    }
}

/// The first index of `.` in a sequence, or its length if there is none.
pub open spec fn first_dot(t: Seq<char>) -> int
    decreases t.len(),
{
    if t.len() == 0 {
        0
    } else if t[0] == '.' {
        0
    } else {
        1 + first_dot(t.drop_first())
    }
}

proof fn lemma_first_dot_at(t: Seq<char>, i: int)
    requires
        0 <= i <= t.len(),
        forall|j: int| 0 <= j < i ==> t[j] != '.',
        i == t.len() || t[i] == '.',
    ensures
        first_dot(t) == i,
    decreases t.len(),
{
    if t.len() > 0 && t[0] != '.' {
        lemma_first_dot_at(t.drop_first(), i - 1);
    }
}

/// The milliseconds denoted by a fraction part of at most three digits.
pub open spec fn frac_millis(fp: Seq<char>) -> nat {
    if fp.len() == 0 {
        0
    } else if fp.len() == 1 {
        dec_val(fp) * 100
    } else if fp.len() == 2 {
        dec_val(fp) * 10
    } else {
        dec_val(fp)
    }
}

/// What parsing a duration in seconds into milliseconds yields: an optional
/// `+`, at least one digit, then optionally a dot and at most three fraction
/// digits, with a value in range.
pub open spec fn parse_seconds_millis_spec(s: Seq<char>) -> Option<u64> {
    let t = strip_plus(s);
    let d = first_dot(t);
    let ip = t.subrange(0, d);
    let fp = if d < t.len() {
        t.subrange(d + 1, t.len() as int)
    } else {
        Seq::<char>::empty()
    };
    if ip.len() == 0 || !all_digits(ip) || fp.len() > 3 || !all_digits(fp) {
        None
    } else if dec_val(ip) * 1000 + frac_millis(fp) > u64::MAX {
        None
    } else {
        Some((dec_val(ip) * 1000 + frac_millis(fp)) as u64)
    }
}

/// Parses a duration given as decimal seconds, with an optional fraction of
/// at most three digits, into whole milliseconds.
#[verifier::loop_isolation(false)]
pub fn parse_seconds_millis(s: &str) -> (r: Option<u64>)
    ensures
        r == parse_seconds_millis_spec(s@),
{
    let n = s.unicode_len();
    let mut start: usize = 0;
    if n >= 1 && s.get_char(0) == '+' {
        start = 1;
    }
    let ghost t = strip_plus(s@);
    proof {
        assert(s@.subrange(start as int, n as int) =~= t);
    }
    // Find the first dot, if any.
    let mut d: usize = start;
    while d < n && s.get_char(d) != '.'
        invariant
            start <= d <= n,
            forall|j: int| start <= j < d ==> s@[j] != '.',
        decreases n - d,
    {
        d = d + 1;
    }
    proof {
        assert(forall|j: int| 0 <= j < d - start ==> t[j] == s@[j + start] && t[j] != '.');
        if d < n {
            assert(t[d - start] == s@[d as int]);
        }
        lemma_first_dot_at(t, d - start);
    }
    let ghost ip = t.subrange(0, d - start);
    let ghost fp = if d - start < t.len() {
        t.subrange(d - start + 1, t.len() as int)
    } else {
        Seq::<char>::empty()
    };
    if d == start {
        // No digits before the dot (or the text is empty).
        return None;
    }
    let int_val = match parse_digits_u64(s, start, d) {
        Some(v) => v,
        None => {
            proof {
                assert(s@.subrange(start as int, d as int) =~= ip);
                if all_digits(ip) {
                    // The integer part alone overflows, so the total does too.
                    assert(dec_val(ip) * 1000 >= dec_val(ip)) by (nonlinear_arith)
                        requires
                            dec_val(ip) >= 0,
                    ;
                }
            }
            return None;
        },
    };
    proof {
        assert(s@.subrange(start as int, d as int) =~= ip);
    }
    let frac: u64;
    if d < n {
        // A dot was found: at most three fraction digits may follow.
        if n - d - 1 > 3 {
            return None;
        }
        let fv = match parse_digits_u64(s, d + 1, n) {
            Some(v) => v,
            None => {
                proof {
                    assert(s@.subrange(d + 1, n as int) =~= fp);
                }
                return None;
            },
        };
        proof {
            assert(s@.subrange(d + 1, n as int) =~= fp);
            assert(fv == dec_val(fp));
            if fp.len() == 1 {
                assert(fp.drop_last() =~= Seq::<char>::empty());
                assert(dec_val(fp.drop_last()) == 0);
                assert(dec_val(fp) == dec_val(fp.drop_last()) * 10 + digit_of(fp.last()));
            } else if fp.len() == 2 {
                assert(fp.drop_last().drop_last() =~= Seq::<char>::empty());
                assert(dec_val(fp.drop_last().drop_last()) == 0);
                assert(dec_val(fp.drop_last()) == dec_val(fp.drop_last().drop_last()) * 10
                    + digit_of(fp.drop_last().last()));
                assert(dec_val(fp) == dec_val(fp.drop_last()) * 10 + digit_of(fp.last()));
            }
        }
        if n - d - 1 == 1 {
            frac = fv * 100;
        } else if n - d - 1 == 2 {
            frac = fv * 10;
        } else {
            frac = fv;
        }
        proof {
            assert(frac == frac_millis(fp));
        }
    } else {
        frac = 0;
        proof {
            assert(fp =~= Seq::<char>::empty());
        }
    }
    let total = match int_val.checked_mul(1000) {
        Some(m) => m.checked_add(frac),
        None => None,
    };
    match total {
        Some(v) => Some(v),
        None => None,
    }
}

} // verus!
