//! Verified string building and parsing helpers: decimal rendering,
//! the four-wide zero-padded form used in asset URLs, separator
//! splitting, line extraction, and integer parsing.

use vstd::prelude::*;
use vstd::string::{StrSliceExecFns, StringExecFns};

verus! {

/// The decimal digit character for `d`.
pub open spec fn spec_digit(d: int) -> char {
    if d == 0 {
        '0'
    } else if d == 1 {
        '1'
    } else if d == 2 {
        '2'
    } else if d == 3 {
        '3'
    } else if d == 4 {
        '4'
    } else if d == 5 {
        '5'
    } else if d == 6 {
        '6'
    } else if d == 7 {
        '7'
    } else if d == 8 {
        '8'
    } else {
        '9'
    }
}

/// The decimal rendering of a non-negative integer, without padding.
pub open spec fn spec_dec_nat(n: int) -> Seq<char>
    decreases n,
{
    if n < 10 {
        seq![spec_digit(n)]
    } else {
        spec_dec_nat(n / 10) + seq![spec_digit(n % 10)]
    }
}

/// The decimal rendering of an integer, with a sign for negatives.
pub open spec fn spec_dec_int(v: int) -> Seq<char> {
    if v < 0 {
        seq!['-'] + spec_dec_nat(-v)
    } else {
        spec_dec_nat(v)
    }
}

/// How many digits the rendering of `n` has.
pub proof fn lemma_dec_nat_len(n: int)
    requires
        n >= 0,
    ensures
        n < 10 ==> spec_dec_nat(n).len() == 1,
        10 <= n < 100 ==> spec_dec_nat(n).len() == 2,
        100 <= n < 1000 ==> spec_dec_nat(n).len() == 3,
        n >= 1000 ==> spec_dec_nat(n).len() >= 4,
    decreases n,
{
    if n >= 10 {
        lemma_dec_nat_len(n / 10);
    }
}

fn digit_str(d: u64) -> (r: &'static str)
    requires
        d < 10,
    ensures
        r@ == seq![spec_digit(d as int)],
{
    proof {
        reveal_strlit("0");
        reveal_strlit("1");
        reveal_strlit("2");
        reveal_strlit("3");
        reveal_strlit("4");
        reveal_strlit("5");
        reveal_strlit("6");
        reveal_strlit("7");
        reveal_strlit("8");
        reveal_strlit("9");
    }
    let r: &'static str = if d == 0 {
        "0"
    } else if d == 1 {
        "1"
    } else if d == 2 {
        "2"
    } else if d == 3 {
        "3"
    } else if d == 4 {
        "4"
    } else if d == 5 {
        "5"
    } else if d == 6 {
        "6"
    } else if d == 7 {
        "7"
    } else if d == 8 {
        "8"
    } else {
        "9"
    };
    proof {
        assert(r@ =~= seq![spec_digit(d as int)]);
    }
    r
}

/// Renders a non-negative integer in decimal.
pub fn u64_to_dec(n: u64) -> (r: String)
    ensures
        r@ == spec_dec_nat(n as int),
    decreases n,
{
    if n < 10 {
        let r = digit_str(n).to_owned();
        proof {
            assert(r@ =~= spec_dec_nat(n as int));
        }
        r
    } else {
        let mut r = u64_to_dec(n / 10);
        r.append(digit_str(n % 10));
        r
    }
}

/// Renders an integer in decimal, with a sign for negatives.
pub fn i32_to_dec(v: i32) -> (r: String)
    ensures
        r@ == spec_dec_int(v as int),
{
    if v >= 0 {
        u64_to_dec(v as u64)
    } else {
        let m: u64 = (-(v as i64)) as u64;
        let mut r = "-".to_owned();
        r.append(u64_to_dec(m).as_str());
        proof {
            reveal_strlit("-");
            assert("-"@ =~= seq!['-']);
        }
        r
    }
}

/// `k` zero characters (none for `k <= 0`).
pub open spec fn spec_zeros(k: int) -> Seq<char> {
    if k <= 0 {
        Seq::empty()
    } else {
        Seq::new(k as nat, |i: int| '0')
    }
}

/// The four-wide zero-padded decimal form used in asset URLs: the
/// rendering of `v` padded with zeros to width four, a sign counting
/// toward the width and the padding standing after it.
pub open spec fn spec_pad4(v: int) -> Seq<char> {
    if v < 0 {
        seq!['-'] + spec_zeros(3 - spec_dec_nat(-v).len()) + spec_dec_nat(-v)
    } else {
        spec_zeros(4 - spec_dec_nat(v).len()) + spec_dec_nat(v)
    }
}

fn zeros_to(width: u64, len: u64) -> (r: &'static str)
    requires
        width <= 4,
        len >= 1,
    ensures
        r@ == spec_zeros(width as int - len as int),
{
    proof {
        reveal_strlit("");
        reveal_strlit("0");
        reveal_strlit("00");
        reveal_strlit("000");
    }
    let k: u64 = if width > len {
        width - len
    } else {
        0
    };
    let r: &'static str = if k == 0 {
        ""
    } else if k == 1 {
        "0"
    } else if k == 2 {
        "00"
    } else if k >= 3 {
        "000"
    } else {
        ""
    };
    proof {
        assert(r@ =~= spec_zeros(width as int - len as int));
    }
    r
}

/// Renders `v` four-wide zero-padded.
pub fn pad4(v: i32) -> (r: String)
    ensures
        r@ == spec_pad4(v as int),
{
    if v >= 0 {
        let digits = u64_to_dec(v as u64);
        proof {
            lemma_dec_nat_len(v as int);
        }
        let z = if v < 10 {
            zeros_to(4, 1)
        } else if v < 100 {
            zeros_to(4, 2)
        } else if v < 1000 {
            zeros_to(4, 3)
        } else {
            zeros_to(4, 4)
        };
        let mut r = z.to_owned();
        r.append(digits.as_str());
        proof {
            if v >= 1000 {
                assert(r@ =~= spec_pad4(v as int));
            }
        }
        r
    } else {
        let m: u64 = (-(v as i64)) as u64;
        let digits = u64_to_dec(m);
        proof {
            lemma_dec_nat_len(m as int);
        }
        let z = if m < 10 {
            zeros_to(3, 1)
        } else if m < 100 {
            zeros_to(3, 2)
        } else {
            zeros_to(3, 3)
        };
        let mut r = "-".to_owned();
        r.append(z);
        r.append(digits.as_str());
        proof {
            reveal_strlit("-");
            assert("-"@ =~= seq!['-']);
            assert(r@ =~= spec_pad4(v as int));
        }
        r
    }
}

/// Index of the first occurrence of `sep` in `s`, or -1 if none.
pub open spec fn find_sep(s: Seq<char>, sep: char) -> int
    decreases s.len(),
{
    if s.len() == 0 {
        -1
    } else if s[0] == sep {
        0
    } else {
        let r = find_sep(s.drop_first(), sep);
        if r < 0 {
            -1
        } else {
            r + 1
        }
    }
}

pub proof fn lemma_find_sep(s: Seq<char>, sep: char)
    ensures
        find_sep(s, sep) >= 0 ==> find_sep(s, sep) < s.len() && s[find_sep(s, sep)] == sep,
        find_sep(s, sep) >= 0 ==> forall|j: int| 0 <= j < find_sep(s, sep) ==> s[j] != sep,
        find_sep(s, sep) < 0 ==> forall|j: int| 0 <= j < s.len() ==> s[j] != sep,
    decreases s.len(),
{
    if s.len() > 0 && s[0] != sep {
        lemma_find_sep(s.drop_first(), sep);
        let r = find_sep(s.drop_first(), sep);
        if r >= 0 {
            assert forall|j: int| 0 <= j < find_sep(s, sep) implies s[j] != sep by {
                if j > 0 {
                    assert(s.drop_first()[j - 1] != sep);
                }
            }
        } else {
            assert forall|j: int| 0 <= j < s.len() implies s[j] != sep by {
                if j > 0 {
                    assert(s.drop_first()[j - 1] != sep);
                }
            }
        }
    }
}

/// A scan that stops at the first `sep` computes `find_sep`.
pub proof fn lemma_find_sep_at(s: Seq<char>, sep: char, k: int)
    requires
        0 <= k < s.len(),
        s[k] == sep,
        forall|j: int| 0 <= j < k ==> s[j] != sep,
    ensures
        find_sep(s, sep) == k,
    decreases s.len(),
{
    if k > 0 {
        assert forall|j: int| 0 <= j < k - 1 implies s.drop_first()[j] != sep by {
            assert(s[j + 1] != sep);
        }
        assert(s.drop_first()[k - 1] == sep);
        lemma_find_sep_at(s.drop_first(), sep, k - 1);
    }
}

/// A scan that finds no `sep` computes `find_sep` as negative.
pub proof fn lemma_find_sep_none(s: Seq<char>, sep: char)
    requires
        forall|j: int| 0 <= j < s.len() ==> s[j] != sep,
    ensures
        find_sep(s, sep) < 0,
    decreases s.len(),
{
    if s.len() > 0 {
        assert forall|j: int| 0 <= j < s.drop_first().len() implies s.drop_first()[j] != sep by {
            assert(s[j + 1] != sep);
        }
        lemma_find_sep_none(s.drop_first(), sep);
    }
}

/// Splitting `s` at every `sep`, keeping empty segments: one segment
/// more than there are separators.
pub open spec fn spec_split(s: Seq<char>, sep: char) -> Seq<Seq<char>>
    decreases s.len(),
{
    let i = find_sep(s, sep);
    if i < 0 || i >= s.len() {
        seq![s]
    } else {
        seq![s.take(i)] + spec_split(s.skip(i + 1), sep)
    }
}

pub proof fn lemma_split_len(s: Seq<char>, sep: char)
    ensures
        spec_split(s, sep).len() >= 1,
    decreases s.len(),
{
    let i = find_sep(s, sep);
    if !(i < 0 || i >= s.len()) {
        lemma_split_len(s.skip(i + 1), sep);
    }
}

/// Splits a character sequence at every `sep`.
pub fn split_chars(s: &Vec<char>, sep: char) -> (segs: Vec<Vec<char>>)
    ensures
        segs@.map_values(|v: Vec<char>| v@) == spec_split(s@, sep),
{
    let n = s.len();
    let mut segs: Vec<Vec<char>> = Vec::new();
    let mut cur: Vec<char> = Vec::new();
    let mut start: usize = 0;
    let mut i: usize = 0;
    proof {
        assert(cur@ =~= s@.subrange(0, 0));
        assert(s@.skip(0) =~= s@);
        assert(segs@.map_values(|v: Vec<char>| v@) =~= Seq::<Seq<char>>::empty());
        assert(Seq::<Seq<char>>::empty() + spec_split(s@, sep) =~= spec_split(s@, sep));
    }
    while i < n
        invariant
            n == s.len(),
            start <= i <= n,
            cur@ == s@.subrange(start as int, i as int),
            forall|j: int| start <= j < i ==> s@[j] != sep,
            spec_split(s@, sep) == segs@.map_values(|v: Vec<char>| v@) + spec_split(
                s@.skip(start as int),
                sep,
            ),
        decreases n - i,
    {
        let c = s[i];
        if c == sep {
            proof {
                let rest = s@.skip(start as int);
                assert forall|j: int| 0 <= j < i - start implies rest[j] != sep by {
                    assert(s@[start + j] != sep);
                }
                assert(rest[i - start] == sep);
                lemma_find_sep_at(rest, sep, i - start);
                assert(rest.take(i - start) =~= s@.subrange(start as int, i as int));
                assert(rest.skip(i - start + 1) =~= s@.skip(i as int + 1));
            }
            let ghost old_map = segs@.map_values(|v: Vec<char>| v@);
            segs.push(cur);
            cur = Vec::new();
            proof {
                assert(segs@.map_values(|v: Vec<char>| v@) =~= old_map.push(
                    s@.subrange(start as int, i as int),
                ));
                assert(spec_split(s@, sep) =~= segs@.map_values(|v: Vec<char>| v@) + spec_split(
                    s@.skip(i as int + 1),
                    sep,
                ));
            }
            start = i + 1;
            proof {
                assert(cur@ =~= s@.subrange(start as int, start as int));
            }
        } else {
            cur.push(c);
            proof {
                assert(cur@ =~= s@.subrange(start as int, i as int + 1));
            }
        }
        i += 1;
    }
    proof {
        let rest = s@.skip(start as int);
        assert forall|j: int| 0 <= j < rest.len() implies rest[j] != sep by {
            assert(s@[start + j] != sep);
        }
        lemma_find_sep_none(rest, sep);
        assert(spec_split(rest, sep) =~= seq![rest]);
        assert(rest =~= s@.subrange(start as int, n as int));
    }
    let ghost old_map = segs@.map_values(|v: Vec<char>| v@);
    segs.push(cur);
    proof {
        assert(segs@.map_values(|v: Vec<char>| v@) =~= old_map.push(
            s@.subrange(start as int, n as int),
        ));
        assert(segs@.map_values(|v: Vec<char>| v@) =~= spec_split(s@, sep));
    }
    segs
}

proof fn lemma_split_last(s: Seq<char>, sep: char, p: int)
    requires
        0 <= p < s.len(),
        s[p] == sep,
        forall|j: int| p < j < s.len() ==> s[j] != sep,
    ensures
        spec_split(s, sep).last() == s.skip(p + 1),
    decreases s.len(),
{
    lemma_find_sep(s, sep);
    let i0 = find_sep(s, sep);
    assert(i0 >= 0);
    assert(i0 <= p);
    let rest = s.skip(i0 + 1);
    lemma_split_len(rest, sep);
    assert((seq![s.take(i0)] + spec_split(rest, sep)).last() == spec_split(rest, sep).last());
    if i0 == p {
        assert forall|j: int| 0 <= j < rest.len() implies rest[j] != sep by {
            assert(s[i0 + 1 + j] != sep);
        }
        lemma_find_sep_none(rest, sep);
        assert(spec_split(rest, sep) =~= seq![rest]);
        assert(rest =~= s.skip(p + 1));
    } else {
        assert(rest[p - i0 - 1] == s[p]);
        assert forall|j: int| p - i0 - 1 < j < rest.len() implies rest[j] != sep by {
            assert(s[i0 + 1 + j] != sep);
        }
        lemma_split_last(rest, sep, p - i0 - 1);
        assert(rest.skip(p - i0) =~= s.skip(p + 1));
    }
}

/// The last `sep`-separated segment of `s`: for a file path split at
/// every slash, the file name.
pub fn last_segment<'a>(s: &'a str, sep: char) -> (r: &'a str)
    ensures
        r@ == spec_split(s@, sep).last(),
{
    let n = s.unicode_len();
    let mut p: usize = n;
    while p > 0 && s.get_char(p - 1) != sep
        invariant
            n == s@.len(),
            p <= n,
            forall|j: int| p <= j < n ==> s@[j] != sep,
        decreases p,
    {
        p -= 1;
    }
    if p == 0 {
        proof {
            lemma_find_sep_none(s@, sep);
            assert(spec_split(s@, sep) =~= seq![s@]);
        }
        s
    } else {
        proof {
            assert(s@[p - 1] == sep);
            lemma_split_last(s@, sep, p - 1);
            assert(s@.skip(p as int) =~= s@.subrange(p as int, n as int));
        }
        s.substring_char(p, n)
    }
}

/// A segment with a trailing carriage return stripped.
pub open spec fn strip_cr(l: Seq<char>) -> Seq<char> {
    if l.len() > 0 && l.last() == '\r' {
        l.drop_last()
    } else {
        l
    }
}

/// The lines of a text: segments split at every newline, each segment
/// that a newline terminated stripped of a trailing carriage return,
/// and no final empty segment after a trailing newline.
pub open spec fn spec_lines(s: Seq<char>) -> Seq<Seq<char>> {
    let parts = spec_split(s, '\n');
    let main = Seq::new((parts.len() - 1) as nat, |i: int| strip_cr(parts[i]));
    if parts.last().len() == 0 {
        main
    } else {
        main.push(parts.last())
    }
}

/// Whether `c` is a decimal digit.
pub open spec fn is_digit(c: char) -> bool {
    '0' <= c <= '9'
}

/// Whether every character of `s` is a decimal digit.
pub open spec fn all_digits(s: Seq<char>) -> bool {
    forall|i: int| 0 <= i < s.len() ==> is_digit(s[i])
}

/// The value of a digit sequence read in base ten.
pub open spec fn digits_val(s: Seq<char>) -> int
    decreases s.len(),
{
    if s.len() == 0 {
        0
    } else {
        digits_val(s.drop_last()) * 10 + (s.last() as int - '0' as int)
    }
}

/// Integer parsing as the standard library's signed decimal parse
/// accepts it: an optional sign, then one or more digits, and a value
/// that fits the 32-bit signed range.
pub open spec fn spec_parse_i32(s: Seq<char>) -> Option<i32> {
    let signed = s.len() > 0 && (s[0] == '+' || s[0] == '-');
    let neg = s.len() > 0 && s[0] == '-';
    let ds = if signed {
        s.drop_first()
    } else {
        s
    };
    if ds.len() == 0 || !all_digits(ds) {
        None
    } else {
        let m = digits_val(ds);
        if neg {
            if m <= 2147483648 {
                Some((-m) as i32)
            } else {
                None
            }
        } else {
            if m <= 2147483647 {
                Some(m as i32)
            } else {
                None
            }
        }
    }
}

/// Parses a segment as a 32-bit signed decimal integer.
pub fn parse_i32(seg: &Vec<char>) -> (r: Option<i32>)
    ensures
        r == spec_parse_i32(seg@),
{
    let n = seg.len();
    if n == 0 {
        return None;
    }
    let c0 = seg[0];
    let neg = c0 == '-';
    let signed = neg || c0 == '+';
    let start: usize = if signed {
        1
    } else {
        0
    };
    let ghost ds = if signed {
        seg@.drop_first()
    } else {
        seg@
    };
    if n - start == 0 {
        return None;
    }
    let mut acc: u64 = 0;
    let mut over = false;
    let mut i: usize = start;
    proof {
        assert(ds.take(0) =~= Seq::<char>::empty());
    }
    while i < n
        invariant
            n == seg.len(),
            n > 0,
            start <= i <= n,
            start <= 1,
            n > start,
            c0 == seg@[0],
            neg == (c0 == '-'),
            signed == (neg || c0 == '+'),
            start == if signed {
                1int
            } else {
                0int
            },
            ds == (if signed {
                seg@.drop_first()
            } else {
                seg@
            }),
            ds.len() == n - start,
            forall|j: int| 0 <= j < ds.len() ==> ds[j] == seg@[j + start],
            all_digits(ds.take(i - start)),
            !over ==> acc == digits_val(ds.take(i - start)) && acc <= 2147483648,
            over ==> digits_val(ds.take(i - start)) > 2147483648,
        decreases n - i,
    {
        let c = seg[i];
        if c < '0' || c > '9' {
            proof {
                assert(ds[i - start] == seg@[i as int]);
                assert(!is_digit(ds[i - start]));
                assert(!all_digits(ds));
            }
            return None;
        }
        let d: u64 = (c as u32 - 48) as u64;
        proof {
            assert(ds.take(i - start + 1).drop_last() =~= ds.take(i - start));
            assert(ds.take(i - start + 1).last() == ds[i - start]);
            assert(ds[i - start] == seg@[i as int]);
            assert(digits_val(ds.take(i - start + 1)) == digits_val(ds.take(i - start)) * 10 + d);
        }
        if !over {
            let t = acc * 10 + d;
            if t > 2147483648 {
                over = true;
            } else {
                acc = t;
            }
        }
        i += 1;
    }
    proof {
        assert(ds.take(n - start) =~= ds);
    }
    if over {
        return None;
    }
    if neg {
        if acc == 2147483648 {
            Some(i32::MIN)
        } else {
            let v: i64 = -(acc as i64);
            Some(v as i32)
        }
    } else {
        if acc <= 2147483647 {
            Some(acc as i32)
        } else {
            None
        }
    }
}

/// Unsigned integer parsing as the standard library's decimal parse
/// accepts it: an optional plus sign, then one or more digits, and a
/// value that fits the 64-bit unsigned range.
pub open spec fn spec_parse_u64(s: Seq<char>) -> Option<u64> {
    let ds = if s.len() > 0 && s[0] == '+' {
        s.drop_first()
    } else {
        s
    };
    if ds.len() == 0 || !all_digits(ds) {
        None
    } else {
        let m = digits_val(ds);
        if m <= 18446744073709551615 {
            Some(m as u64)
        } else {
            None
        }
    }
}

/// Parses a string as a 64-bit unsigned decimal integer.
pub fn parse_u64(s: &str) -> (r: Option<u64>)
    ensures
        r == spec_parse_u64(s@),
{
    let n = s.unicode_len();
    if n == 0 {
        return None;
    }
    let c0 = s.get_char(0);
    let signed = c0 == '+';
    let start: usize = if signed {
        1
    } else {
        0
    };
    let ghost ds = if signed {
        s@.drop_first()
    } else {
        s@
    };
    if n - start == 0 {
        return None;
    }
    let mut acc: u128 = 0;
    let mut over = false;
    let mut i: usize = start;
    proof {
        assert(ds.take(0) =~= Seq::<char>::empty());
    }
    while i < n
        invariant
            n == s@.len(),
            n > 0,
            start <= i <= n,
            start <= 1,
            n > start,
            c0 == s@[0],
            signed == (c0 == '+'),
            start == if signed {
                1int
            } else {
                0int
            },
            ds == (if signed {
                s@.drop_first()
            } else {
                s@
            }),
            ds.len() == n - start,
            forall|j: int| 0 <= j < ds.len() ==> ds[j] == s@[j + start],
            all_digits(ds.take(i - start)),
            !over ==> acc == digits_val(ds.take(i - start)) && acc <= 18446744073709551615,
            over ==> digits_val(ds.take(i - start)) > 18446744073709551615,
        decreases n - i,
    {
        let c = s.get_char(i);
        if c < '0' || c > '9' {
            proof {
                assert(ds[i - start] == s@[i as int]);
                assert(!is_digit(ds[i - start]));
                assert(!all_digits(ds));
            }
            return None;
        }
        let d: u128 = (c as u32 - 48) as u128;
        proof {
            assert(ds.take(i - start + 1).drop_last() =~= ds.take(i - start));
            assert(ds.take(i - start + 1).last() == ds[i - start]);
            assert(ds[i - start] == s@[i as int]);
            assert(digits_val(ds.take(i - start + 1)) == digits_val(ds.take(i - start)) * 10 + d);
        }
        if !over {
            let t = acc * 10 + d;
            if t > 18446744073709551615 {
                over = true;
            } else {
                acc = t;
            }
        }
        i += 1;
    }
    proof {
        assert(ds.take(n - start) =~= ds);
    }
    if over {
        None
    } else {
        Some(acc as u64)
    }
}

/// The line with index `k` of a text, under the same line-splitting the
/// standard library applies: `None` when the text has no such line.
pub fn line_at<'a>(content: &'a str, k: usize) -> (r: Option<&'a str>)
    ensures
        r matches Some(l) ==> k < spec_lines(content@).len() && l@ == spec_lines(content@)[k as int],
        r is None ==> k >= spec_lines(content@).len(),
{
    let n = content.unicode_len();
    let ghost parts = spec_split(content@, '\n');
    let ghost lines = spec_lines(content@);
    let mut start: usize = 0;
    let mut seg_idx: usize = 0;
    let ghost mut done = Seq::<Seq<char>>::empty();
    proof {
        assert(content@.skip(0) =~= content@);
        assert(done + spec_split(content@, '\n') =~= spec_split(content@, '\n'));
    }
    loop
        invariant
            n == content@.len(),
            start <= n,
            seg_idx == done.len(),
            seg_idx <= k,
            parts == spec_split(content@, '\n'),
            lines == spec_lines(content@),
            parts == done + spec_split(content@.skip(start as int), '\n'),
        decreases n - start + 1,
    {
        let ghost rest = content@.skip(start as int);
        let mut j: usize = start;
        while j < n && content.get_char(j) != '\n'
            invariant
                n == content@.len(),
                start <= j <= n,
                forall|t: int| start <= t < j ==> content@[t] != '\n',
            decreases n - j,
        {
            j += 1;
        }
        proof {
            assert(j == n || content@[j as int] == '\n');
        }
        proof {
            assert forall|t: int| 0 <= t < j - start implies rest[t] != '\n' by {
                assert(content@[start + t] != '\n');
            }
        }
        if j < n {
            // a newline terminates this segment
            proof {
                assert(rest[j - start] == content@[j as int]);
                lemma_find_sep_at(rest, '\n', j - start);
                assert(rest.take(j - start) =~= content@.subrange(start as int, j as int));
                assert(rest.skip(j - start + 1) =~= content@.skip(j as int + 1));
                lemma_split_len(content@.skip(j as int + 1), '\n');
            }
            if seg_idx == k {
                proof {
                    assert(parts[k as int] == content@.subrange(start as int, j as int));
                    assert(parts.len() >= k + 2);
                    assert(lines.len() >= parts.len() - 1);
                    assert(lines[k as int] == strip_cr(parts[k as int]));
                }
                let mut end = j;
                if end > start && content.get_char(end - 1) == '\r' {
                    end = end - 1;
                    proof {
                        assert(strip_cr(parts[k as int]) =~= content@.subrange(
                            start as int,
                            end as int,
                        ));
                    }
                } else {
                    proof {
                        assert(strip_cr(parts[k as int]) =~= content@.subrange(
                            start as int,
                            end as int,
                        ));
                    }
                }
                let line = content.substring_char(start, end);
                return Some(line);
            }
            proof {
                done = done.push(content@.subrange(start as int, j as int));
                assert(parts =~= done + spec_split(content@.skip(j as int + 1), '\n'));
            }
            seg_idx += 1;
            start = j + 1;
        } else {
            // no further newline: this is the final segment
            proof {
                lemma_find_sep_none(rest, '\n');
                assert(spec_split(rest, '\n') =~= seq![rest]);
                assert(parts =~= done.push(rest));
                assert(parts.len() == seg_idx + 1);
                assert(rest =~= content@.subrange(start as int, n as int));
            }
            if seg_idx == k {
                if n > start {
                    proof {
                        assert(parts.last() == rest);
                        assert(parts.last().len() > 0);
                        assert(lines.len() == parts.len());
                        assert(lines[k as int] == rest);
                    }
                    let line = content.substring_char(start, n);
                    return Some(line);
                } else {
                    proof {
                        assert(parts.last().len() == 0);
                        assert(lines.len() == parts.len() - 1);
                    }
                    return None;
                }
            } else {
                proof {
                    assert(lines.len() <= parts.len());
                }
                return None;
            }
        }
    }
}

} // verus!
