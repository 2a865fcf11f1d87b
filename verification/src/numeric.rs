//! Trimming and base-10 parsing of typed text, and decimal rendering of
//! counts for the status message.

use vstd::prelude::*;
use vstd::string::StrSliceExecFns;

verus! {

/// A character that trimming removes: the Unicode `White_Space` set.
pub open spec fn is_space(c: char) -> bool {
    ||| c == ' '
    ||| c == '\t'
    ||| c == '\n'
    ||| c == '\r'
    ||| c == '\u{000B}'
    ||| c == '\u{000C}'
    ||| c == '\u{0085}'
    ||| c == '\u{00A0}'
    ||| c == '\u{1680}'
    ||| (0x2000 <= c as int && c as int <= 0x200A)
    ||| c == '\u{2028}'
    ||| c == '\u{2029}'
    ||| c == '\u{202F}'
    ||| c == '\u{205F}'
    ||| c == '\u{3000}'
}

/// An ASCII decimal digit.
pub open spec fn is_digit(c: char) -> bool {
    48 <= c as int && c as int <= 57
}

/// The numeric value of an ASCII decimal digit.
pub open spec fn digit_val(c: char) -> nat {
    (c as int - 48) as nat
}

/// Every character of `s` is an ASCII decimal digit.
pub open spec fn all_digits(s: Seq<char>) -> bool {
    forall|i: int| 0 <= i < s.len() ==> is_digit(#[trigger] s[i])
}

/// `s` without its leading whitespace.
pub open spec fn trim_front(s: Seq<char>) -> Seq<char>
    decreases s.len(),
{
    if s.len() == 0 {
        s
    } else if is_space(s[0]) {
        trim_front(s.drop_first())
    } else {
        s
    }
}

/// `s` without its trailing whitespace.
pub open spec fn trim_back(s: Seq<char>) -> Seq<char>
    decreases s.len(),
{
    if s.len() == 0 {
        s
    } else if is_space(s.last()) {
        trim_back(s.drop_last())
    } else {
        s
    }
}

/// `s` without leading and trailing whitespace.
pub open spec fn trimmed(s: Seq<char>) -> Seq<char> {
    trim_back(trim_front(s))
}

/// The value of a sequence of decimal digits, most significant first.
pub open spec fn digits_value(s: Seq<char>) -> nat
    decreases s.len(),
{
    if s.len() == 0 {
        0
    } else {
        digits_value(s.drop_last()) * 10 + digit_val(s.last())
    }
}

/// What parsing the text `s` as a positive base-10 integer yields: the value
/// of the trimmed digits when they are non-empty, all digits, positive and
/// within `usize`; `None` otherwise.
pub open spec fn parse_positive_spec(s: Seq<char>) -> Option<usize> {
    let t = trimmed(s);
    if t.len() > 0 && all_digits(t) && digits_value(t) <= usize::MAX && digits_value(t) >= 1 {
        Some(digits_value(t) as usize)
    } else {
        None
    }
}

/// `s` trimmed reads as the positive integer `v`.
pub open spec fn parses_as_positive(s: Seq<char>, v: usize) -> bool {
    let t = trimmed(s);
    t.len() > 0 && all_digits(t) && digits_value(t) == v && v >= 1
}

proof fn lemma_trim_front_skip(s: Seq<char>, i: int)
    requires
        0 <= i <= s.len(),
        forall|k: int| 0 <= k < i ==> is_space(#[trigger] s[k]),
    ensures
        trim_front(s) == trim_front(s.subrange(i, s.len() as int)),
    decreases i,
{
    if i == 0 {
        assert(s.subrange(0, s.len() as int) =~= s);
    } else {
        assert(is_space(s[0]));
        lemma_trim_front_skip(s.drop_first(), i - 1);
        assert(s.drop_first() =~= s.subrange(1, s.len() as int));
        assert(s.drop_first().subrange(i - 1, s.drop_first().len() as int) =~= s.subrange(
            i,
            s.len() as int,
        ));
    }
}

proof fn lemma_trim_back_skip(s: Seq<char>, j: int)
    requires
        0 <= j <= s.len(),
        forall|k: int| j <= k < s.len() ==> is_space(#[trigger] s[k]),
    ensures
        trim_back(s) == trim_back(s.subrange(0, j)),
    decreases s.len() - j,
{
    if j == s.len() {
        assert(s.subrange(0, s.len() as int) =~= s);
    } else {
        assert(is_space(s.last()));
        lemma_trim_back_skip(s.drop_last(), j);
        assert(s.drop_last() =~= s.subrange(0, s.len() - 1));
        assert(s.drop_last().subrange(0, j) =~= s.subrange(0, j));
    }
}

/// The value of a longer digit prefix is never smaller: used to detect
/// overflow before the whole text has been scanned.
proof fn lemma_digits_value_prefix_le(s: Seq<char>, j: int)
    requires
        0 <= j <= s.len(),
    ensures
        digits_value(s.subrange(0, j)) <= digits_value(s),
    decreases s.len() - j,
{
    if j == s.len() {
        assert(s.subrange(0, s.len() as int) =~= s);
    } else {
        assert(s.subrange(0, j + 1).drop_last() =~= s.subrange(0, j));
        assert(digits_value(s.subrange(0, j + 1)) == digits_value(s.subrange(0, j)) * 10
            + digit_val(s.subrange(0, j + 1).last()));
        lemma_digits_value_prefix_le(s, j + 1);
    }
}

/// The ASCII character for a single decimal digit.
pub open spec fn digit_char(d: nat) -> char {
    if d == 0 {
        '0'
    } else if d == 1 {
        '1'
    } else if d == 2 {
        '2'
    } else if d == 3 {
        '3'
    } else if d == 4 {
        '4'
    } else if d == 5 {
        '5'
    } else if d == 6 {
        '6'
    } else if d == 7 {
        '7'
    } else if d == 8 {
        '8'
    } else {
        '9'
    }
}

/// The decimal rendering of `n`, most significant digit first, without
/// leading zeros (a single `'0'` for zero).
pub open spec fn dec_digits(n: nat) -> Seq<char>
    decreases n,
{
    if n < 10 {
        seq![digit_char(n)]
    } else {
        dec_digits(n / 10).push(digit_char(n % 10))
    }
}

fn is_space_char(c: char) -> (b: bool)
    ensures
        b == is_space(c),
{
    let u = c as u32;
    u == 0x20 || u == 0x09 || u == 0x0A || u == 0x0D || u == 0x0B || u == 0x0C || u == 0x85
        || u == 0xA0 || u == 0x1680 || (0x2000 <= u && u <= 0x200A) || u == 0x2028 || u == 0x2029
        || u == 0x202F || u == 0x205F || u == 0x3000
}

fn is_digit_char(c: char) -> (b: bool)
    ensures
        b == is_digit(c),
{
    let u = c as u32;
    48 <= u && u <= 57
}

fn digit_value_char(c: char) -> (d: usize)
    requires
        is_digit(c),
    ensures
        d == digit_val(c),
        d <= 9,
{
    (c as u32 - 48) as usize
}

/// Parses `s`, trimmed, as a positive base-10 integer; `None` on empty or
/// non-numeric text, on zero, and on values that do not fit in `usize`.
pub fn parse_positive(s: &str) -> (r: Option<usize>)
    ensures
        r == parse_positive_spec(s@),
{
    let n = s.unicode_len();
    let mut lo: usize = 0;
    while lo < n && is_space_char(s.get_char(lo))
        invariant
            lo <= n,
            n == s@.len(),
            forall|k: int| 0 <= k < lo ==> is_space(#[trigger] s@[k]),
        decreases n - lo,
    {
        lo = lo + 1;
    }
    proof {
        lemma_trim_front_skip(s@, lo as int);
        assert(trim_front(s@) == s@.subrange(lo as int, n as int));
    }
    let mut hi: usize = n;
    while hi > lo && is_space_char(s.get_char(hi - 1))
        invariant
            lo <= hi <= n,
            n == s@.len(),
            forall|k: int| hi <= k < n ==> is_space(#[trigger] s@[k]),
        decreases hi,
    {
        hi = hi - 1;
    }
    let ghost t = s@.subrange(lo as int, hi as int);
    proof {
        let front = s@.subrange(lo as int, n as int);
        assert(forall|k: int| hi - lo <= k < front.len() ==> is_space(#[trigger] front[k]));
        lemma_trim_back_skip(front, hi - lo);
        assert(front.subrange(0, hi - lo) =~= t);
        if hi > lo {
            assert(t.last() == s@[hi - 1]);
        }
        assert(trimmed(s@) == t);
    }
    if hi == lo {
        // trimmed text is empty
        return None;
    }
    let mut acc: usize = 0;
    let mut i: usize = lo;
    while i < hi
        invariant
            lo <= i <= hi <= n,
            n == s@.len(),
            t == s@.subrange(lo as int, hi as int),
            trimmed(s@) == t,
            all_digits(t.subrange(0, i - lo)),
            acc == digits_value(t.subrange(0, i - lo)),
        decreases hi - i,
    {
        let c = s.get_char(i);
        proof {
            assert(t[i - lo] == s@[i as int]);
        }
        if !is_digit_char(c) {
            proof {
                assert(!all_digits(t));
            }
            return None;
        }
        let d = digit_value_char(c);
        let limit = usize::MAX / 10;
        let rem = usize::MAX % 10;
        let ghost prev = t.subrange(0, i - lo);
        proof {
            assert(t.subrange(0, i - lo + 1).drop_last() =~= prev);
            assert(t.subrange(0, i - lo + 1).last() == t[i - lo]);
            assert(digits_value(t.subrange(0, i - lo + 1)) == acc * 10 + d);
        }
        if acc > limit || (acc == limit && d > rem) {
            proof {
                assert(10 * limit + rem == usize::MAX);
                assert(acc * 10 + d > usize::MAX);
                lemma_digits_value_prefix_le(t, i - lo + 1);
                assert(digits_value(t) > usize::MAX);
            }
            return None;
        }
        proof {
            assert(10 * limit + rem == usize::MAX);
            assert(acc * 10 + d <= usize::MAX);
        }
        acc = acc * 10 + d;
        i = i + 1;
    }
    proof {
        assert(t.subrange(0, hi - lo) =~= t);
        assert(acc == digits_value(t));
        assert(all_digits(t));
    }
    if acc == 0 {
        return None;
    }
    Some(acc)
}

fn digit_str(d: usize) -> (r: &'static str)
    requires
        d <= 9,
    ensures
        r@ == seq![digit_char(d as nat)],
{
    let r: &'static str = if d == 0 {
        "0"
    } else if d == 1 {
        "1"
    } else if d == 2 {
        "2"
    } else if d == 3 {
        "3"
    } else if d == 4 {
        "4"
    } else if d == 5 {
        "5"
    } else if d == 6 {
        "6"
    } else if d == 7 {
        "7"
    } else if d == 8 {
        "8"
    } else {
        "9"
    };
    proof {
        reveal_strlit("0");
        reveal_strlit("1");
        reveal_strlit("2");
        reveal_strlit("3");
        reveal_strlit("4");
        reveal_strlit("5");
        reveal_strlit("6");
        reveal_strlit("7");
        reveal_strlit("8");
        reveal_strlit("9");
        assert(r@ =~= seq![digit_char(d as nat)]);
    }
    r
}

fn push_decimal(n: usize, out: &mut String)
    ensures
        final(out)@ == old(out)@ + dec_digits(n as nat),
    decreases n,
{
    if n >= 10 {
        push_decimal(n / 10, out);
    }
    out.append(digit_str(n % 10));
    proof {
        if n >= 10 {
            assert(old(out)@ + dec_digits((n / 10) as nat) + seq![digit_char((n % 10) as nat)]
                =~= old(out)@ + dec_digits(n as nat));
        } else {
            assert(old(out)@ + seq![digit_char(n as nat)] =~= old(out)@ + dec_digits(n as nat));
        }
    }
}

/// Renders `n` in decimal.
pub fn decimal_string(n: usize) -> (r: String)
    ensures
        r@ == dec_digits(n as nat),
{
    let mut s = String::new();
    push_decimal(n, &mut s);
    proof {
        assert(Seq::<char>::empty() + dec_digits(n as nat) =~= dec_digits(n as nat));
    }
    s
}

} // verus!
