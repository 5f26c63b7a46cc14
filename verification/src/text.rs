//! Verified text helpers: substring search, split and replace, decimal
//! numbers, and the extension of a file-like address. The adapters' address
//! rewriting and the download file name are built from these.

use vstd::prelude::*;
use vstd::string::*;

verus! {

/// The pattern `p` occurs in `s` at position `i`.
pub open spec fn spec_match_at(s: Seq<char>, p: Seq<char>, i: int) -> bool {
    0 <= i && i + p.len() <= s.len() && s.subrange(i, i + p.len() as int) == p
}

/// The first position where `p` occurs in `s`, if any.
pub open spec fn spec_find(s: Seq<char>, p: Seq<char>) -> Option<int>
    decreases s.len(),
{
    if p.len() > s.len() {
        None
    } else if spec_match_at(s, p, 0) {
        Some(0)
    } else if s.len() == 0 {
        None
    } else {
        match spec_find(s.subrange(1, s.len() as int), p) {
            None => None,
            Some(i) => Some(i + 1),
        }
    }
}

/// `spec_find` returns the first occurrence: a match where it points, none
/// before it, and none at all when it returns nothing.
pub proof fn lemma_find_correct(s: Seq<char>, p: Seq<char>)
    ensures
        match spec_find(s, p) {
            Some(i) => spec_match_at(s, p, i) && forall|j: int|
                0 <= j < i ==> !spec_match_at(s, p, j),
            None => forall|j: int| !spec_match_at(s, p, j),
        },
    decreases s.len(),
{
    if p.len() > s.len() {
    } else if spec_match_at(s, p, 0) {
    } else if s.len() == 0 {
    } else {
        let t = s.subrange(1, s.len() as int);
        lemma_find_correct(t, p);
        assert forall|j: int| #![auto] 0 <= j implies spec_match_at(t, p, j) == spec_match_at(
            s,
            p,
            j + 1,
        ) by {
            if j + p.len() <= t.len() {
                assert(t.subrange(j, j + p.len() as int) =~= s.subrange(
                    j + 1,
                    j + 1 + p.len() as int,
                ));
            }
        }
        match spec_find(t, p) {
            None => {
                assert forall|j: int| !spec_match_at(s, p, j) by {
                    if 1 <= j {
                        assert(!spec_match_at(t, p, j - 1));
                    }
                }
            },
            Some(i) => {
                assert(spec_match_at(t, p, i));
                assert forall|j: int| 0 <= j < i + 1 implies !spec_match_at(s, p, j) by {
                    if 1 <= j {
                        assert(!spec_match_at(t, p, j - 1));
                    }
                }
            },
        }
    }
}

/// Whether `p` occurs in `s` at position `i`.
pub fn match_at(s: &str, p: &str, i: usize) -> (b: bool)
    requires
        i + p@.len() <= s@.len(),
    ensures
        b == spec_match_at(s@, p@, i as int),
{
    let n = s.unicode_len();
    let m = p.unicode_len();
    let mut j: usize = 0;
    while j < m
        invariant
            n == s@.len(),
            m == p@.len(),
            i + m <= n,
            0 <= j <= m,
            forall|k: int| 0 <= k < j ==> s@[i + k] == p@[k],
        decreases m - j,
    {
        if s.get_char(i + j) != p.get_char(j) {
            proof {
                if spec_match_at(s@, p@, i as int) {
                    assert(s@.subrange(i as int, i + p@.len() as int)[j as int] == p@[j as int]);
                }
            }
            return false;
        }
        j += 1;
    }
    proof {
        assert(s@.subrange(i as int, i + p@.len() as int) =~= p@);
    }
    true
}

/// The first position where `p` occurs in `s`, if any.
pub fn find_sub(s: &str, p: &str) -> (r: Option<usize>)
    ensures
        r is None <==> spec_find(s@, p@) is None,
        r matches Some(k) ==> spec_find(s@, p@) == Some(k as int),
{
    let n = s.unicode_len();
    let m = p.unicode_len();
    if m > n {
        return None;
    }
    if m == 0 {
        proof {
            assert(s@.subrange(0, 0) =~= p@);
        }
        return Some(0);
    }
    let mut i: usize = 0;
    while i <= n - m
        invariant
            n == s@.len(),
            m == p@.len(),
            1 <= m <= n,
            0 <= i <= n - m + 1,
            forall|j: int| 0 <= j < i ==> !spec_match_at(s@, p@, j),
        decreases n - i,
    {
        if match_at(s, p, i) {
            proof {
                lemma_find_correct(s@, p@);
            }
            return Some(i);
        }
        i += 1;
    }
    proof {
        lemma_find_correct(s@, p@);
    }
    None
}

/// Whether two strings hold the same characters.
pub fn str_eq(a: &str, b: &str) -> (r: bool)
    ensures
        r == (a@ == b@),
{
    let n = a.unicode_len();
    let m = b.unicode_len();
    if n != m {
        return false;
    }
    let mut i: usize = 0;
    while i < n
        invariant
            n == a@.len(),
            n == b@.len(),
            0 <= i <= n,
            forall|k: int| 0 <= k < i ==> a@[k] == b@[k],
        decreases n - i,
    {
        if a.get_char(i) != b.get_char(i) {
            return false;
        }
        i += 1;
    }
    proof {
        assert(a@ =~= b@);
    }
    true
}

/// Splits `s` at the first occurrence of `p`: what stands before it and what
/// follows it, or nothing when `p` does not occur.
pub fn split_once_str(s: &str, p: &str) -> (r: Option<(String, String)>)
    ensures
        r is None <==> spec_find(s@, p@) is None,
        r matches Some(pair) ==> spec_find(s@, p@) matches Some(i) && pair.0@ == s@.subrange(0, i)
            && pair.1@ == s@.subrange(i + p@.len(), s@.len() as int),
{
    let n = s.unicode_len();
    match find_sub(s, p) {
        None => None,
        Some(i) => {
            proof {
                lemma_find_correct(s@, p@);
            }
            let m = p.unicode_len();
            let before = s.substring_char(0, i).to_owned();
            let after = s.substring_char(i + m, n).to_owned();
            Some((before, after))
        },
    }
}

/// `s` with every occurrence of `from` replaced by `to`, scanning left to
/// right and never rescanning what `to` contributed.
pub open spec fn spec_replace(s: Seq<char>, from: Seq<char>, to: Seq<char>) -> Seq<char>
    decreases s.len(),
    when from.len() > 0
    via spec_replace_decreases
{
    match spec_find(s, from) {
        None => s,
        Some(i) => s.subrange(0, i) + to + spec_replace(
            s.subrange(i + from.len(), s.len() as int),
            from,
            to,
        ),
    }
}

#[via_fn]
proof fn spec_replace_decreases(s: Seq<char>, from: Seq<char>, to: Seq<char>) {
    lemma_find_correct(s, from);
}

/// `s` with every occurrence of `from` replaced by `to`.
pub fn replace_all(s: &str, from: &str, to: &str) -> (r: String)
    requires
        from@.len() > 0,
    ensures
        r@ == spec_replace(s@, from@, to@),
{
    let mut out = String::new();
    let mut rest = s.to_owned();
    proof {
        assert(out@ + spec_replace(rest@, from@, to@) =~= spec_replace(s@, from@, to@));
    }
    loop
        invariant_except_break
            from@.len() > 0,
            spec_replace(s@, from@, to@) == out@ + spec_replace(rest@, from@, to@),
        ensures
            out@ == spec_replace(s@, from@, to@),
        decreases rest@.len(),
    {
        let n = rest.as_str().unicode_len();
        let m = from.unicode_len();
        match find_sub(rest.as_str(), from) {
            None => {
                proof {
                    assert(spec_replace(rest@, from@, to@) == rest@);
                }
                out.append(rest.as_str());
                break ;
            },
            Some(i) => {
                proof {
                    lemma_find_correct(rest@, from@);
                }
                let ghost rest0 = rest@;
                let ghost out0 = out@;
                let before = rest.as_str().substring_char(0, i);
                out.append(before);
                out.append(to);
                let tail = rest.as_str().substring_char(i + m, n).to_owned();
                rest = tail;
                proof {
                    assert(spec_replace(rest0, from@, to@) == rest0.subrange(0, i as int) + to@
                        + spec_replace(rest@, from@, to@));
                    assert(out@ + spec_replace(rest@, from@, to@) =~= out0 + spec_replace(
                        rest0,
                        from@,
                        to@,
                    ));
                }
            },
        }
    }
    out
}

/// A decimal digit.
pub open spec fn spec_is_digit(c: char) -> bool {
    '0' as int <= c as int <= '9' as int
}

/// The value of a decimal digit.
pub open spec fn spec_digit_val(c: char) -> int {
    c as int - '0' as int
}

/// Every character of `s` is a decimal digit.
pub open spec fn spec_all_digits(s: Seq<char>) -> bool {
    forall|i: int| 0 <= i < s.len() ==> spec_is_digit(#[trigger] s[i])
}

/// The number a digit sequence denotes.
pub open spec fn spec_digits_val(s: Seq<char>) -> int
    decreases s.len(),
{
    if s.len() == 0 {
        0
    } else {
        spec_digits_val(s.drop_last()) * 10 + spec_digit_val(s.last())
    }
}

/// The number a whole string denotes, if it is one or more digits.
pub open spec fn spec_parse_usize(s: Seq<char>) -> Option<int> {
    if s.len() > 0 && spec_all_digits(s) {
        Some(spec_digits_val(s))
    } else {
        None
    }
}

/// A digit sequence denotes a non-negative number, no smaller than what any
/// of its prefixes denotes.
pub proof fn lemma_digits_val_bounds(s: Seq<char>, i: int)
    requires
        spec_all_digits(s),
        0 <= i <= s.len(),
    ensures
        0 <= spec_digits_val(s.subrange(0, i)) <= spec_digits_val(s),
    decreases s.len() - i,
{
    if i == s.len() {
        assert(s.subrange(0, i) =~= s);
        lemma_digits_val_nonneg(s);
    } else {
        lemma_digits_val_bounds(s, i + 1);
        let a = s.subrange(0, i);
        let b = s.subrange(0, i + 1);
        assert(b.drop_last() =~= a);
        lemma_digits_val_nonneg(a);
    }
}

/// A digit sequence denotes a non-negative number.
pub proof fn lemma_digits_val_nonneg(s: Seq<char>)
    requires
        spec_all_digits(s),
    ensures
        spec_digits_val(s) >= 0,
    decreases s.len(),
{
    if s.len() > 0 {
        assert(spec_all_digits(s.drop_last()));
        lemma_digits_val_nonneg(s.drop_last());
    }
}

/// Reads a decimal number: the denoted value when `s` is all digits and the
/// value fits the machine, nothing otherwise.
pub fn parse_usize(s: &str) -> (r: Option<usize>)
    ensures
        match spec_parse_usize(s@) {
            None => r is None,
            Some(v) => if v <= usize::MAX { r == Some(v as usize) } else { r is None },
        },
        r matches Some(u) ==> spec_parse_usize(s@) == Some(u as int),
{
    let n = s.unicode_len();
    if n == 0 {
        return None;
    }
    let mut acc: usize = 0;
    let mut i: usize = 0;
    while i < n
        invariant
            n == s@.len(),
            0 <= i <= n,
            spec_all_digits(s@.subrange(0, i as int)),
            acc == spec_digits_val(s@.subrange(0, i as int)),
        decreases n - i,
    {
        let c = s.get_char(i);
        let code: u32 = c as u32;
        if code < 48 || code > 57 {
            proof {
                assert(!spec_is_digit(s@[i as int]));
            }
            return None;
        }
        let d: usize = (code - 48) as usize;
        if acc > (usize::MAX - d) / 10 {
            proof {
                let pre = s@.subrange(0, i as int + 1);
                assert(pre.drop_last() =~= s@.subrange(0, i as int));
                assert(spec_digits_val(pre) > usize::MAX);
                if s@.len() > 0 && spec_all_digits(s@) {
                    lemma_digits_val_bounds(s@, i as int + 1);
                }
            }
            return None;
        }
        acc = acc * 10 + d;
        i += 1;
        proof {
            let pre = s@.subrange(0, i as int);
            assert(pre.drop_last() =~= s@.subrange(0, i as int - 1));
        }
    }
    proof {
        assert(s@.subrange(0, n as int) =~= s@);
    }
    Some(acc)
}

/// The digit standing for a value below ten.
pub open spec fn spec_digit_char(d: int) -> char {
    if d == 0 {
        '0'
    } else if d == 1 {
        '1'
    } else if d == 2 {
        '2'
    } else if d == 3 {
        '3'
    } else if d == 4 {
        '4'
    } else if d == 5 {
        '5'
    } else if d == 6 {
        '6'
    } else if d == 7 {
        '7'
    } else if d == 8 {
        '8'
    } else {
        '9'
    }
}

/// The decimal digits of `n`, most significant first.
pub open spec fn spec_digits(n: int) -> Seq<char>
    decreases n,
{
    if n < 10 {
        seq![spec_digit_char(n)]
    } else {
        spec_digits(n / 10).push(spec_digit_char(n % 10))
    }
}

fn digit_str(d: usize) -> (r: &'static str)
    requires
        d < 10,
    ensures
        r@ == seq![spec_digit_char(d as int)],
{
    proof {
        reveal_strlit("0");
        reveal_strlit("1");
        reveal_strlit("2");
        reveal_strlit("3");
        reveal_strlit("4");
        reveal_strlit("5");
        reveal_strlit("6");
        reveal_strlit("7");
        reveal_strlit("8");
        reveal_strlit("9");
    }
    let r = match d {
        0 => "0",
        1 => "1",
        2 => "2",
        3 => "3",
        4 => "4",
        5 => "5",
        6 => "6",
        7 => "7",
        8 => "8",
        _ => "9",
    };
    proof {
        assert(r@ =~= seq![spec_digit_char(d as int)]);
    }
    r
}

/// Writes `n` in decimal.
pub fn usize_to_string(n: usize) -> (r: String)
    ensures
        r@ == spec_digits(n as int),
    decreases n,
{
    if n < 10 {
        digit_str(n).to_owned()
    } else {
        let mut r = usize_to_string(n / 10);
        r.append(digit_str(n % 10));
        proof {
            assert(r@ =~= spec_digits(n as int));
        }
        r
    }
}

/// The position of the last dot of `s`, if any.
pub open spec fn spec_last_dot(s: Seq<char>) -> Option<int>
    decreases s.len(),
{
    if s.len() == 0 {
        None
    } else if s.last() == '.' {
        Some(s.len() - 1)
    } else {
        spec_last_dot(s.drop_last())
    }
}

/// What follows the last dot of `s`, or all of `s` when it has no dot.
pub open spec fn spec_ext_after_last_dot(s: Seq<char>) -> Seq<char> {
    match spec_last_dot(s) {
        Some(i) => s.subrange(i + 1, s.len() as int),
        None => s,
    }
}

/// `spec_last_dot` points at a dot with none after it, and returns nothing
/// only when `s` has no dot.
pub proof fn lemma_last_dot_correct(s: Seq<char>)
    ensures
        match spec_last_dot(s) {
            Some(i) => 0 <= i < s.len() && s[i] == '.' && forall|j: int|
                i < j < s.len() ==> s[j] != '.',
            None => forall|j: int| 0 <= j < s.len() ==> s[j] != '.',
        },
    decreases s.len(),
{
    if s.len() == 0 {
    } else if s.last() == '.' {
    } else {
        let t = s.drop_last();
        lemma_last_dot_correct(t);
        assert(forall|j: int| 0 <= j < t.len() ==> t[j] == s[j]);
        match spec_last_dot(t) {
            Some(i) => {
                assert(s[i] == '.');
                assert forall|j: int| i < j < s.len() implies s[j] != '.' by {
                    if j < t.len() {
                        assert(t[j] != '.');
                    } else {
                        assert(s[j] == s.last());
                    }
                }
            },
            None => {
                assert forall|j: int| 0 <= j < s.len() implies s[j] != '.' by {
                    if j < t.len() {
                        assert(t[j] != '.');
                    } else {
                        assert(s[j] == s.last());
                    }
                }
            },
        }
    }
}

/// What follows the last dot of `s`, or all of `s` when it has no dot.
pub fn ext_after_last_dot(s: &str) -> (r: String)
    ensures
        r@ == spec_ext_after_last_dot(s@),
{
    let n = s.unicode_len();
    let mut i: usize = n;
    while i > 0
        invariant
            n == s@.len(),
            0 <= i <= n,
            forall|k: int| i <= k < n ==> s@[k] != '.',
        decreases i,
    {
        if s.get_char(i - 1) == '.' {
            proof {
                lemma_last_dot_correct(s@);
                match spec_last_dot(s@) {
                    Some(j) => {
                        assert(j == i - 1);
                    },
                    None => {
                        assert(s@[i - 1] == '.');
                    },
                }
            }
            return s.substring_char(i, n).to_owned();
        }
        i -= 1;
    }
    proof {
        lemma_last_dot_correct(s@);
        match spec_last_dot(s@) {
            Some(j) => {
                assert(s@[j] != '.');
            },
            None => {},
        }
    }
    s.to_owned()
}

} // verus!
