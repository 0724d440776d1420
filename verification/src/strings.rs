//! Character-level string helpers with exact specifications.
//!
//! Every venue speaks in ASCII protocol text, so the transformations the
//! engine needs (separator replacement, case folding, decimal rendering,
//! decimal parsing, searching) are defined here over `Seq<char>` views and
//! implemented as verified loops.

use vstd::prelude::*;
use vstd::string::*;

verus! {

/// Relies on `String::push`: appends exactly one character at the end.
#[verifier::external_body]
pub fn push_char(s: &mut String, c: char)
    ensures
        final(s)@ == old(s)@.push(c),
{
    s.push(c);
}

/// Character-by-character equality of two string slices.
pub fn str_eq(a: &str, b: &str) -> (r: bool)
    ensures
        r == (a@ == b@),
{
    let n = a.unicode_len();
    if n != b.unicode_len() {
        return false;
    }
    let mut i: usize = 0;
    while i < n
        invariant
            n == a@.len(),
            n == b@.len(),
            i <= n,
            forall|j: int| 0 <= j < i ==> a@[j] == b@[j],
        decreases n - i,
    {
        if a.get_char(i) != b.get_char(i) {
            return false;
        }
        i += 1;
    }
    proof {
        assert(a@ =~= b@);
    }
    true
}

/// The sequence `s` with every occurrence of `from` replaced by `to`.
pub open spec fn spec_replace(s: Seq<char>, from: char, to: char) -> Seq<char> {
    s.map_values(|c: char| if c == from { to } else { c })
}

/// Replaces every occurrence of one character by another.
pub fn replace_char(s: &str, from: char, to: char) -> (r: String)
    ensures
        r@ == spec_replace(s@, from, to),
{
    let n = s.unicode_len();
    let mut r = String::new();
    let mut i: usize = 0;
    while i < n
        invariant
            n == s@.len(),
            i <= n,
            r@ == spec_replace(s@.subrange(0, i as int), from, to),
        decreases n - i,
    {
        let c = s.get_char(i);
        if c == from {
            push_char(&mut r, to);
        } else {
            push_char(&mut r, c);
        }
        proof {
            assert(spec_replace(s@.subrange(0, i + 1), from, to) =~= spec_replace(
                s@.subrange(0, i as int),
                from,
                to,
            ).push(if s@[i as int] == from {
                to
            } else {
                s@[i as int]
            }));
        }
        i += 1;
    }
    proof {
        assert(s@.subrange(0, n as int) =~= s@);
    }
    r
}

/// The sequence `s` with every occurrence of `c` removed.
pub open spec fn spec_remove(s: Seq<char>, c: char) -> Seq<char>
    decreases s.len(),
{
    if s.len() == 0 {
        Seq::empty()
    } else if s.last() == c {
        spec_remove(s.drop_last(), c)
    } else {
        spec_remove(s.drop_last(), c).push(s.last())
    }
}

/// Removes every occurrence of one character.
pub fn remove_char(s: &str, c: char) -> (r: String)
    ensures
        r@ == spec_remove(s@, c),
{
    let n = s.unicode_len();
    let mut r = String::new();
    let mut i: usize = 0;
    while i < n
        invariant
            n == s@.len(),
            i <= n,
            r@ == spec_remove(s@.subrange(0, i as int), c),
        decreases n - i,
    {
        let ch = s.get_char(i);
        proof {
            assert(s@.subrange(0, i + 1).drop_last() =~= s@.subrange(0, i as int));
            assert(s@.subrange(0, i + 1).last() == s@[i as int]);
        }
        if ch != c {
            push_char(&mut r, ch);
        }
        i += 1;
    }
    proof {
        assert(s@.subrange(0, n as int) =~= s@);
    }
    r
}

/// ASCII lower-casing of one character; other characters are unchanged.
pub open spec fn spec_lower_char(c: char) -> char {
    match c {
        'A' => 'a',
        'B' => 'b',
        'C' => 'c',
        'D' => 'd',
        'E' => 'e',
        'F' => 'f',
        'G' => 'g',
        'H' => 'h',
        'I' => 'i',
        'J' => 'j',
        'K' => 'k',
        'L' => 'l',
        'M' => 'm',
        'N' => 'n',
        'O' => 'o',
        'P' => 'p',
        'Q' => 'q',
        'R' => 'r',
        'S' => 's',
        'T' => 't',
        'U' => 'u',
        'V' => 'v',
        'W' => 'w',
        'X' => 'x',
        'Y' => 'y',
        'Z' => 'z',
        _ => c,
    }
}

/// ASCII upper-casing of one character; other characters are unchanged.
pub open spec fn spec_upper_char(c: char) -> char {
    match c {
        'a' => 'A',
        'b' => 'B',
        'c' => 'C',
        'd' => 'D',
        'e' => 'E',
        'f' => 'F',
        'g' => 'G',
        'h' => 'H',
        'i' => 'I',
        'j' => 'J',
        'k' => 'K',
        'l' => 'L',
        'm' => 'M',
        'n' => 'N',
        'o' => 'O',
        'p' => 'P',
        'q' => 'Q',
        'r' => 'R',
        's' => 'S',
        't' => 'T',
        'u' => 'U',
        'v' => 'V',
        'w' => 'W',
        'x' => 'X',
        'y' => 'Y',
        'z' => 'Z',
        _ => c,
    }
}

/// ASCII lower-casing of a whole sequence.
pub open spec fn spec_to_lower(s: Seq<char>) -> Seq<char> {
    s.map_values(|c: char| spec_lower_char(c))
}

/// ASCII upper-casing of a whole sequence.
pub open spec fn spec_to_upper(s: Seq<char>) -> Seq<char> {
    s.map_values(|c: char| spec_upper_char(c))
}

fn lower_char(c: char) -> (r: char)
    ensures
        r == spec_lower_char(c),
{
    match c {
        'A' => 'a',
        'B' => 'b',
        'C' => 'c',
        'D' => 'd',
        'E' => 'e',
        'F' => 'f',
        'G' => 'g',
        'H' => 'h',
        'I' => 'i',
        'J' => 'j',
        'K' => 'k',
        'L' => 'l',
        'M' => 'm',
        'N' => 'n',
        'O' => 'o',
        'P' => 'p',
        'Q' => 'q',
        'R' => 'r',
        'S' => 's',
        'T' => 't',
        'U' => 'u',
        'V' => 'v',
        'W' => 'w',
        'X' => 'x',
        'Y' => 'y',
        'Z' => 'z',
        _ => c,
    }
}

fn upper_char(c: char) -> (r: char)
    ensures
        r == spec_upper_char(c),
{
    match c {
        'a' => 'A',
        'b' => 'B',
        'c' => 'C',
        'd' => 'D',
        'e' => 'E',
        'f' => 'F',
        'g' => 'G',
        'h' => 'H',
        'i' => 'I',
        'j' => 'J',
        'k' => 'K',
        'l' => 'L',
        'm' => 'M',
        'n' => 'N',
        'o' => 'O',
        'p' => 'P',
        'q' => 'Q',
        'r' => 'R',
        's' => 'S',
        't' => 'T',
        'u' => 'U',
        'v' => 'V',
        'w' => 'W',
        'x' => 'X',
        'y' => 'Y',
        'z' => 'Z',
        _ => c,
    }
}

/// ASCII lower-casing of a string.
pub fn to_ascii_lower(s: &str) -> (r: String)
    ensures
        r@ == spec_to_lower(s@),
{
    let n = s.unicode_len();
    let mut r = String::new();
    let mut i: usize = 0;
    while i < n
        invariant
            n == s@.len(),
            i <= n,
            r@ == spec_to_lower(s@.subrange(0, i as int)),
        decreases n - i,
    {
        push_char(&mut r, lower_char(s.get_char(i)));
        proof {
            assert(spec_to_lower(s@.subrange(0, i + 1)) =~= spec_to_lower(
                s@.subrange(0, i as int),
            ).push(spec_lower_char(s@[i as int])));
        }
        i += 1;
    }
    proof {
        assert(s@.subrange(0, n as int) =~= s@);
    }
    r
}

/// ASCII upper-casing of a string.
pub fn to_ascii_upper(s: &str) -> (r: String)
    ensures
        r@ == spec_to_upper(s@),
{
    let n = s.unicode_len();
    let mut r = String::new();
    let mut i: usize = 0;
    while i < n
        invariant
            n == s@.len(),
            i <= n,
            r@ == spec_to_upper(s@.subrange(0, i as int)),
        decreases n - i,
    {
        push_char(&mut r, upper_char(s.get_char(i)));
        proof {
            assert(spec_to_upper(s@.subrange(0, i + 1)) =~= spec_to_upper(
                s@.subrange(0, i as int),
            ).push(spec_upper_char(s@[i as int])));
        }
        i += 1;
    }
    proof {
        assert(s@.subrange(0, n as int) =~= s@);
    }
    r
}

/// Whether `p` is a prefix of `s`.
pub open spec fn spec_starts_with(s: Seq<char>, p: Seq<char>) -> bool {
    p.len() <= s.len() && s.subrange(0, p.len() as int) == p
}

/// Whether `p` is a suffix of `s`.
pub open spec fn spec_ends_with(s: Seq<char>, p: Seq<char>) -> bool {
    p.len() <= s.len() && s.subrange(s.len() - p.len(), s.len() as int) == p
}

/// Prefix test.
pub fn starts_with_str(s: &str, p: &str) -> (r: bool)
    ensures
        r == spec_starts_with(s@, p@),
{
    let n = s.unicode_len();
    let m = p.unicode_len();
    if m > n {
        return false;
    }
    let head = s.substring_char(0, m);
    let r = str_eq(head, p);
    r
}

/// Suffix test.
pub fn ends_with_str(s: &str, p: &str) -> (r: bool)
    ensures
        r == spec_ends_with(s@, p@),
{
    let n = s.unicode_len();
    let m = p.unicode_len();
    if m > n {
        return false;
    }
    let tail = s.substring_char(n - m, n);
    let r = str_eq(tail, p);
    r
}

/// The character for one decimal digit value.
pub open spec fn spec_digit_char(d: int) -> char {
    if d == 0 {
        '0'
    } else if d == 1 {
        '1'
    } else if d == 2 {
        '2'
    } else if d == 3 {
        '3'
    } else if d == 4 {
        '4'
    } else if d == 5 {
        '5'
    } else if d == 6 {
        '6'
    } else if d == 7 {
        '7'
    } else if d == 8 {
        '8'
    } else {
        '9'
    }
}

fn digit_char(d: u64) -> (r: char)
    requires
        d < 10,
    ensures
        r == spec_digit_char(d as int),
{
    if d == 0 {
        '0'
    } else if d == 1 {
        '1'
    } else if d == 2 {
        '2'
    } else if d == 3 {
        '3'
    } else if d == 4 {
        '4'
    } else if d == 5 {
        '5'
    } else if d == 6 {
        '6'
    } else if d == 7 {
        '7'
    } else if d == 8 {
        '8'
    } else {
        '9'
    }
}

/// Decimal rendering of a non-negative integer, most significant digit first.
pub open spec fn spec_dec_u64(n: nat) -> Seq<char>
    decreases n,
{
    if n < 10 {
        seq![spec_digit_char(n as int)]
    } else {
        spec_dec_u64(n / 10).push(spec_digit_char((n % 10) as int))
    }
}

/// Decimal rendering of a signed integer: a minus sign, then the digits.
pub open spec fn spec_dec_i64(n: int) -> Seq<char> {
    if n >= 0 {
        spec_dec_u64(n as nat)
    } else {
        seq!['-'] + spec_dec_u64((-n) as nat)
    }
}

/// Renders an unsigned integer in decimal.
pub fn u64_to_string(n: u64) -> (r: String)
    ensures
        r@ == spec_dec_u64(n as nat),
{
    let mut digits: Vec<char> = Vec::new();
    let mut m = n;
    if m == 0 {
        digits.push('0');
        proof {
            assert(digits@.reverse() =~= seq!['0']);
        }
    }
    while m > 0
        invariant
            m > 0 ==> spec_dec_u64(n as nat) =~= spec_dec_u64(m as nat) + digits@.reverse(),
            m == 0 ==> spec_dec_u64(n as nat) =~= digits@.reverse(),
        decreases m,
    {
        let ghost rev_old = digits@.reverse();
        let d = m % 10;
        digits.push(digit_char(d));
        proof {
            assert(digits@.drop_last() =~= digits@.subrange(0, digits@.len() - 1));
            assert(digits@.reverse() =~= seq![spec_digit_char(d as int)] + rev_old);
        }
        m = m / 10;
        proof {
            if m == 0 {
                assert(spec_dec_u64((10 * m + d) as nat) =~= seq![spec_digit_char(d as int)]);
                assert(spec_dec_u64(n as nat) =~= digits@.reverse());
            } else {
                assert(spec_dec_u64((10 * m + d) as nat) == spec_dec_u64(m as nat).push(
                    spec_digit_char(d as int),
                ));
                assert(spec_dec_u64(m as nat).push(spec_digit_char(d as int)) + rev_old
                    =~= spec_dec_u64(m as nat) + (seq![spec_digit_char(d as int)] + rev_old));
                assert(spec_dec_u64(n as nat) =~= spec_dec_u64(m as nat) + digits@.reverse());
            }
        }
    }
    let mut r = String::new();
    let k = digits.len();
    let mut i: usize = 0;
    while i < k
        invariant
            k == digits@.len(),
            i <= k,
            r@ =~= digits@.reverse().subrange(0, i as int),
        decreases k - i,
    {
        push_char(&mut r, digits[k - 1 - i]);
        proof {
            assert(digits@.reverse().subrange(0, i + 1) =~= digits@.reverse().subrange(
                0,
                i as int,
            ).push(digits@[k - 1 - i]));
        }
        i += 1;
    }
    proof {
        assert(digits@.reverse().subrange(0, k as int) =~= digits@.reverse());
    }
    r
}

/// Renders a signed integer in decimal.
pub fn i64_to_string(n: i64) -> (r: String)
    ensures
        r@ == spec_dec_i64(n as int),
{
    if n >= 0 {
        u64_to_string(n as u64)
    } else {
        let mag: u64 = if n == i64::MIN {
            9223372036854775808u64
        } else {
            (-n) as u64
        };
        let mut r = String::new();
        push_char(&mut r, '-');
        let tail = u64_to_string(mag);
        r.append(tail.as_str());
        proof {
            assert(r@ =~= seq!['-'] + spec_dec_u64((-(n as int)) as nat));
        }
        r
    }
}

/// Whether `c` is a decimal digit.
pub open spec fn spec_is_digit(c: char) -> bool {
    c == '0' || c == '1' || c == '2' || c == '3' || c == '4' || c == '5' || c == '6' || c == '7'
        || c == '8' || c == '9'
}

/// The value of one decimal digit character.
pub open spec fn spec_digit_val(c: char) -> int {
    if c == '0' {
        0
    } else if c == '1' {
        1
    } else if c == '2' {
        2
    } else if c == '3' {
        3
    } else if c == '4' {
        4
    } else if c == '5' {
        5
    } else if c == '6' {
        6
    } else if c == '7' {
        7
    } else if c == '8' {
        8
    } else {
        9
    }
}

/// Whether every character of `s` is a decimal digit.
pub open spec fn spec_all_digits(s: Seq<char>) -> bool {
    forall|i: int| 0 <= i < s.len() ==> spec_is_digit(#[trigger] s[i])
}

/// The numeric value of a digit sequence, read most significant digit first.
pub open spec fn spec_digits_val(s: Seq<char>) -> int
    decreases s.len(),
{
    if s.len() == 0 {
        0
    } else {
        spec_digits_val(s.drop_last()) * 10 + spec_digit_val(s.last())
    }
}

pub proof fn lemma_digits_val_nonneg(s: Seq<char>)
    ensures
        spec_digits_val(s) >= 0,
    decreases s.len(),
{
    if s.len() > 0 {
        lemma_digits_val_nonneg(s.drop_last());
    }
}

/// Appending digits never shrinks the value.
pub proof fn lemma_digits_val_grows(s: Seq<char>, n: int)
    requires
        0 <= n <= s.len(),
    ensures
        spec_digits_val(s) >= spec_digits_val(s.subrange(0, n)),
    decreases s.len() - n,
{
    if n < s.len() {
        lemma_digits_val_grows(s, n + 1);
        let p = s.subrange(0, n);
        let q = s.subrange(0, n + 1);
        assert(q.drop_last() =~= p);
        lemma_digits_val_nonneg(p);
        assert(spec_digits_val(q) == spec_digits_val(p) * 10 + spec_digit_val(q.last()));
        assert(spec_digits_val(p) * 10 >= spec_digits_val(p)) by (nonlinear_arith)
            requires
                spec_digits_val(p) >= 0,
        ;
    } else {
        assert(s.subrange(0, n) =~= s);
    }
}

/// The signed integer a string denotes: an optional minus sign followed by
/// one or more decimal digits, with the value in range for `i64`.
pub open spec fn spec_parse_i64(s: Seq<char>) -> Option<i64> {
    if s.len() > 0 && s[0] == '-' {
        let ds = s.subrange(1, s.len() as int);
        if ds.len() > 0 && spec_all_digits(ds) && spec_digits_val(ds) <= 0x8000000000000000 {
            Some((-spec_digits_val(ds)) as i64)
        } else {
            None
        }
    } else if s.len() > 0 && spec_all_digits(s) && spec_digits_val(s) <= 0x7fffffffffffffff {
        Some(spec_digits_val(s) as i64)
    } else {
        None
    }
}

fn digit_value(c: char) -> (r: Option<u64>)
    ensures
        r is Some <==> spec_is_digit(c),
        r matches Some(d) ==> d == spec_digit_val(c),
{
    match c {
        '0' => Some(0),
        '1' => Some(1),
        '2' => Some(2),
        '3' => Some(3),
        '4' => Some(4),
        '5' => Some(5),
        '6' => Some(6),
        '7' => Some(7),
        '8' => Some(8),
        '9' => Some(9),
        _ => None,
    }
}

fn parse_digits(s: &str, from: usize, limit: u64) -> (r: Option<u64>)
    requires
        from <= s@.len(),
        limit >= 9,
    ensures
        ({
            let ds = s@.subrange(from as int, s@.len() as int);
            match r {
                Some(v) => ds.len() > 0 && spec_all_digits(ds) && spec_digits_val(ds) == v && v
                    <= limit,
                None => !(ds.len() > 0 && spec_all_digits(ds) && spec_digits_val(ds) <= limit),
            }
        }),
{
    let ghost ds = s@.subrange(from as int, s@.len() as int);
    let n = s.unicode_len();
    if from == n {
        return None;
    }
    let mut acc: u64 = 0;
    let mut i: usize = from;
    while i < n
        invariant
            n == s@.len(),
            from <= i <= n,
            limit >= 9,
            ds == s@.subrange(from as int, n as int),
            spec_all_digits(ds.subrange(0, i - from)),
            acc == spec_digits_val(ds.subrange(0, i - from)),
            acc <= limit,
        decreases n - i,
    {
        let c = s.get_char(i);
        proof {
            assert(ds[i - from] == s@[i as int]);
            assert(ds.subrange(0, i - from + 1).drop_last() =~= ds.subrange(0, i - from));
            assert(ds.subrange(0, i - from + 1).last() == ds[i - from]);
        }
        match digit_value(c) {
            None => {
                return None;
            },
            Some(d) => {
                proof {
                    assert(spec_digit_val(c) <= 9);
                    assert(d <= 9);
                    assert(d <= limit);
                }
                let threshold = (limit - d) / 10;
                if acc > threshold {
                    proof {
                        let p = ds.subrange(0, i - from + 1);
                        assert(spec_digits_val(p) == acc * 10 + d);
                        assert(acc * 10 + d > limit) by (nonlinear_arith)
                            requires
                                acc > (limit - d) / 10,
                                0 <= d <= limit,
                                acc >= 0,
                        ;
                        lemma_digits_val_grows(ds, i - from + 1);
                    }
                    return None;
                }
                proof {
                    assert(acc * 10 + d <= limit) by (nonlinear_arith)
                        requires
                            acc <= (limit - d) / 10,
                            0 <= d <= limit,
                            acc >= 0,
                    ;
                }
                acc = acc * 10 + d;
            },
        }
        i += 1;
    }
    proof {
        assert(ds.subrange(0, n - from) =~= ds);
    }
    Some(acc)
}

/// Parses an optionally signed decimal integer; `None` on any other shape.
pub fn parse_i64(s: &str) -> (r: Option<i64>)
    ensures
        r == spec_parse_i64(s@),
{
    let n = s.unicode_len();
    if n == 0 {
        return None;
    }
    if s.get_char(0) == '-' {
        match parse_digits(s, 1, 0x8000000000000000u64) {
            None => None,
            Some(v) => {
                if v == 0x8000000000000000u64 {
                    Some(i64::MIN)
                } else {
                    Some(-(v as i64))
                }
            },
        }
    } else {
        match parse_digits(s, 0, 0x7fffffffffffffffu64) {
            None => None,
            Some(v) => {
                proof {
                    assert(s@.subrange(0, s@.len() as int) =~= s@);
                }
                Some(v as i64)
            },
        }
    }
}

/// The unsigned integer a string denotes: one or more decimal digits whose
/// value fits in `u64`.
pub open spec fn spec_parse_u64(s: Seq<char>) -> Option<u64> {
    if s.len() > 0 && spec_all_digits(s) && spec_digits_val(s) <= 0xffffffffffffffff {
        Some(spec_digits_val(s) as u64)
    } else {
        None
    }
}

/// Parses an unsigned decimal integer; `None` on any other shape.
pub fn parse_u64(s: &str) -> (r: Option<u64>)
    ensures
        r == spec_parse_u64(s@),
{
    let r = parse_digits(s, 0, u64::MAX);
    proof {
        assert(s@.subrange(0, s@.len() as int) =~= s@);
    }
    r
}

/// Whether `pat` occurs in `s` starting at position `i`.
pub open spec fn spec_match_at(s: Seq<char>, pat: Seq<char>, i: int) -> bool {
    0 <= i && i + pat.len() <= s.len() && s.subrange(i, i + pat.len()) == pat
}

/// Position of the first occurrence of `pat` in `s`.
pub open spec fn spec_find(s: Seq<char>, pat: Seq<char>) -> Option<int>
    decreases s.len(),
{
    if pat.len() > s.len() {
        None
    } else if spec_match_at(s, pat, 0) {
        Some(0)
    } else if s.len() == 0 {
        None
    } else {
        match spec_find(s.subrange(1, s.len() as int), pat) {
            None => None,
            Some(j) => Some(j + 1),
        }
    }
}

pub proof fn lemma_find_in_range(s: Seq<char>, pat: Seq<char>)
    ensures
        spec_find(s, pat) matches Some(j) ==> 0 <= j && j + pat.len() <= s.len(),
    decreases s.len(),
{
    if pat.len() <= s.len() && !spec_match_at(s, pat, 0) && s.len() > 0 {
        lemma_find_in_range(s.subrange(1, s.len() as int), pat);
    }
}

/// Position of the first occurrence of `pat`, if any.
pub fn find_str(s: &str, pat: &str) -> (r: Option<usize>)
    ensures
        match r {
            Some(j) => spec_find(s@, pat@) == Some(j as int),
            None => spec_find(s@, pat@) is None,
        },
    decreases s@.len(),
{
    let n = s.unicode_len();
    let m = pat.unicode_len();
    if m > n {
        return None;
    }
    if str_eq(s.substring_char(0, m), pat) {
        return Some(0);
    }
    if n == 0 {
        return None;
    }
    proof {
        lemma_find_in_range(s@.subrange(1, s@.len() as int), pat@);
    }
    match find_str(s.substring_char(1, n), pat) {
        None => None,
        Some(j) => Some(j + 1),
    }
}

/// The `k`-th piece of `s` when split on the separator `pat`, counted from
/// zero; `None` when `s` has fewer than `k + 1` pieces.
pub open spec fn spec_split_nth(s: Seq<char>, pat: Seq<char>, k: nat) -> Option<Seq<char>>
    decreases k,
{
    match spec_find(s, pat) {
        None => if k == 0 {
            Some(s)
        } else {
            None
        },
        Some(i) => if k == 0 {
            Some(s.subrange(0, i))
        } else {
            spec_split_nth(s.subrange(i + pat.len(), s.len() as int), pat, (k - 1) as nat)
        },
    }
}

/// Splits on a separator and returns the `k`-th piece, counted from zero.
pub fn split_nth(s: &str, pat: &str, k: usize) -> (r: Option<String>)
    requires
        pat@.len() > 0,
    ensures
        match r {
            Some(t) => spec_split_nth(s@, pat@, k as nat) == Some(t@),
            None => spec_split_nth(s@, pat@, k as nat) is None,
        },
    decreases k,
{
    let n = s.unicode_len();
    proof {
        lemma_find_in_range(s@, pat@);
    }
    match find_str(s, pat) {
        None => {
            if k == 0 {
                Some(s.to_owned())
            } else {
                None
            }
        },
        Some(i) => {
            if k == 0 {
                Some(s.substring_char(0, i).to_owned())
            } else {
                let m = pat.unicode_len();
                split_nth(s.substring_char(i + m, n), pat, k - 1)
            }
        },
    }
}

} // verus!
