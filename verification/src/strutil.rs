//! Verified text helpers.
//!
//! The connection-listing tools hand the engine tabular text; everything the
//! engine reads out of that text (ports, PIDs, addresses, config lines) goes
//! through the functions of this module.  Each has an exact specification
//! over the character sequence of its input.

use vstd::prelude::*;

verus! {

/// True when `c` is an ASCII decimal digit.
pub open spec fn is_digit_char(c: char) -> bool {
    48 <= c as u32 && c as u32 <= 57
}

/// The numeric value of one ASCII digit character.
pub open spec fn digit_val(c: char) -> int {
    c as u32 - 48
}

/// True when every character of `s` is an ASCII decimal digit.
pub open spec fn all_digits(s: Seq<char>) -> bool {
    forall|i: int| 0 <= i < s.len() ==> is_digit_char(#[trigger] s[i])
}

/// The value of a digit string read in base ten.
pub open spec fn digits_val(s: Seq<char>) -> int
    decreases s.len(),
{
    if s.len() == 0 {
        0
    } else {
        digits_val(s.drop_last()) * 10 + digit_val(s.last())
    }
}

/// What parsing a decimal `u16` returns: defined exactly on nonempty digit
/// strings whose value fits.
pub open spec fn parse_u16_spec(s: Seq<char>) -> Option<u16> {
    if s.len() > 0 && all_digits(s) && digits_val(s) <= 65535 {
        Some(digits_val(s) as u16)
    } else {
        None
    }
}

/// What parsing a decimal `u32` returns.
pub open spec fn parse_u32_spec(s: Seq<char>) -> Option<u32> {
    if s.len() > 0 && all_digits(s) && digits_val(s) <= 0xffff_ffff {
        Some(digits_val(s) as u32)
    } else {
        None
    }
}

proof fn lemma_digits_val_step(s: Seq<char>, i: int)
    requires
        0 <= i < s.len(),
    ensures
        digits_val(s.subrange(0, i + 1)) == digits_val(s.subrange(0, i)) * 10 + digit_val(s[i]),
{
    assert(s.subrange(0, i + 1).drop_last() =~= s.subrange(0, i));
    assert(s.subrange(0, i + 1).last() == s[i]);
}

/// Parse a nonempty all-digit string as a `u16`.
pub fn parse_u16(s: &str) -> (r: Option<u16>)
    ensures
        r == parse_u16_spec(s@),
{
    let n = s.unicode_len();
    if n == 0 {
        return None;
    }
    // `val` tracks the prefix value, clamped to 65536 once it is too large.
    let mut val: u32 = 0;
    let mut i: usize = 0;
    while i < n
        invariant
            n == s@.len(),
            0 < n,
            0 <= i <= n,
            all_digits(s@.subrange(0, i as int)),
            val <= 65536,
            val <= 65535 ==> val == digits_val(s@.subrange(0, i as int)),
            val == 65536 ==> digits_val(s@.subrange(0, i as int)) > 65535,
        decreases n - i,
    {
        let c = s.get_char(i);
        let cu = c as u32;
        if cu < 48 || cu > 57 {
            proof {
                assert(!is_digit_char(s@[i as int]));
            }
            return None;
        }
        let d = cu - 48;
        proof {
            lemma_digits_val_step(s@, i as int);
            assert(all_digits(s@.subrange(0, i as int + 1))) by {
                assert(forall|j: int| 0 <= j < i ==> is_digit_char(
                    #[trigger] s@.subrange(0, i as int + 1)[j],
                ));
                assert(s@.subrange(0, i as int + 1)[i as int] == s@[i as int]);
            }
        }
        if val <= 65535 {
            let nv = val * 10 + d;
            val = if nv > 65535 {
                65536
            } else {
                nv
            };
        } else {
            proof {
                let pre = digits_val(s@.subrange(0, i as int));
                assert(pre * 10 > 65535 * 10) by (nonlinear_arith)
                    requires
                        pre > 65535,
                ;
            }
        }
        i = i + 1;
    }
    proof {
        assert(s@.subrange(0, n as int) =~= s@);
    }
    if val <= 65535 {
        Some(val as u16)
    } else {
        None
    }
}

/// Parse a nonempty all-digit string as a `u32`.
pub fn parse_u32(s: &str) -> (r: Option<u32>)
    ensures
        r == parse_u32_spec(s@),
{
    let n = s.unicode_len();
    if n == 0 {
        return None;
    }
    // `val` tracks the prefix value, clamped once it no longer fits a u32.
    let mut val: u64 = 0;
    let mut i: usize = 0;
    while i < n
        invariant
            n == s@.len(),
            0 < n,
            0 <= i <= n,
            all_digits(s@.subrange(0, i as int)),
            val <= 0x1_0000_0000,
            val <= 0xffff_ffff ==> val == digits_val(s@.subrange(0, i as int)),
            val == 0x1_0000_0000 ==> digits_val(s@.subrange(0, i as int)) > 0xffff_ffff,
        decreases n - i,
    {
        let c = s.get_char(i);
        let cu = c as u32;
        if cu < 48 || cu > 57 {
            proof {
                assert(!is_digit_char(s@[i as int]));
            }
            return None;
        }
        let d = (cu - 48) as u64;
        proof {
            lemma_digits_val_step(s@, i as int);
            assert(all_digits(s@.subrange(0, i as int + 1))) by {
                assert(forall|j: int| 0 <= j < i ==> is_digit_char(
                    #[trigger] s@.subrange(0, i as int + 1)[j],
                ));
                assert(s@.subrange(0, i as int + 1)[i as int] == s@[i as int]);
            }
        }
        if val <= 0xffff_ffff {
            let nv = val * 10 + d;
            val = if nv > 0xffff_ffff {
                0x1_0000_0000
            } else {
                nv
            };
        } else {
            proof {
                let pre = digits_val(s@.subrange(0, i as int));
                assert(pre * 10 > 0xffff_ffff * 10) by (nonlinear_arith)
                    requires
                        pre > 0xffff_ffff,
                ;
            }
        }
        i = i + 1;
    }
    proof {
        assert(s@.subrange(0, n as int) =~= s@);
    }
    if val <= 0xffff_ffff {
        Some(val as u32)
    } else {
        None
    }
}

/// Character-for-character equality of two string slices.
pub fn str_eq(a: &str, b: &str) -> (r: bool)
    ensures
        r == (a@ == b@),
{
    let n = a.unicode_len();
    let m = b.unicode_len();
    if n != m {
        return false;
    }
    let mut i: usize = 0;
    while i < n
        invariant
            n == a@.len(),
            n == b@.len(),
            0 <= i <= n,
            forall|j: int| 0 <= j < i ==> a@[j] == b@[j],
        decreases n - i,
    {
        if a.get_char(i) != b.get_char(i) {
            return false;
        }
        i = i + 1;
    }
    proof {
        assert(a@ =~= b@);
    }
    true
}

/// Relies on `String::push`: appends exactly one character at the end.
#[verifier::external_body]
pub fn push_char(s: &mut String, c: char)
    ensures
        final(s)@ == old(s)@.push(c),
{
    s.push(c);
}

/// The ASCII character for the decimal digit `d`.
pub open spec fn digit_char(d: int) -> char {
    (d + 48) as char
}

/// The decimal digit string of `n`, most significant digit first.
pub open spec fn dec_str(n: int) -> Seq<char>
    recommends
        n >= 0,
    decreases n,
{
    if n < 10 {
        seq![digit_char(n)]
    } else {
        dec_str(n / 10).push(digit_char(n % 10))
    }
}

fn digit_to_char(d: u64) -> (c: char)
    requires
        d < 10,
    ensures
        c == digit_char(d as int),
{
    match d {
        0 => '0',
        1 => '1',
        2 => '2',
        3 => '3',
        4 => '4',
        5 => '5',
        6 => '6',
        7 => '7',
        8 => '8',
        _ => '9',
    }
}

/// Format `n` in decimal.
pub fn u64_to_string(n: u64) -> (r: String)
    ensures
        r@ == dec_str(n as int),
    decreases n,
{
    if n < 10 {
        let mut s = String::new();
        push_char(&mut s, digit_to_char(n));
        proof {
            assert(s@ =~= dec_str(n as int));
        }
        s
    } else {
        let mut s = u64_to_string(n / 10);
        push_char(&mut s, digit_to_char(n % 10));
        s
    }
}

/// First index at or after `i` where `s` holds `c`.
pub open spec fn find_from(s: Seq<char>, c: char, i: int) -> Option<int>
    decreases s.len() - i,
{
    if i < 0 || i >= s.len() {
        None
    } else if s[i] == c {
        Some(i)
    } else {
        find_from(s, c, i + 1)
    }
}

/// Last index below `i` where `s` holds `c`.
pub open spec fn rfind_from(s: Seq<char>, c: char, i: int) -> Option<int>
    decreases i,
{
    if i <= 0 || i > s.len() {
        None
    } else if s[i - 1] == c {
        Some(i - 1)
    } else {
        rfind_from(s, c, i - 1)
    }
}

/// Last index of `c` in `s`.
pub open spec fn rfind_spec(s: Seq<char>, c: char) -> Option<int> {
    rfind_from(s, c, s.len() as int)
}

pub proof fn lemma_find_from_props(s: Seq<char>, c: char, i: int)
    requires
        0 <= i <= s.len(),
    ensures
        match find_from(s, c, i) {
            Some(j) => i <= j < s.len() && s[j] == c && (forall|k: int|
                i <= k < j ==> s[k] != c),
            None => forall|k: int| i <= k < s.len() ==> s[k] != c,
        },
    decreases s.len() - i,
{
    if i < s.len() && s[i] != c {
        lemma_find_from_props(s, c, i + 1);
    }
}

pub proof fn lemma_rfind_from_props(s: Seq<char>, c: char, i: int)
    requires
        0 <= i <= s.len(),
    ensures
        match rfind_from(s, c, i) {
            Some(j) => 0 <= j < i && s[j] == c && (forall|k: int|
                j < k < i ==> s[k] != c),
            None => forall|k: int| 0 <= k < i ==> s[k] != c,
        },
    decreases i,
{
    if i > 0 && s[i - 1] != c {
        lemma_rfind_from_props(s, c, i - 1);
    }
}

/// First index of `c` in `s`.
pub fn find_char(s: &str, c: char) -> (r: Option<usize>)
    ensures
        match r {
            Some(j) => find_from(s@, c, 0) == Some(j as int),
            None => find_from(s@, c, 0) is None,
        },
{
    let n = s.unicode_len();
    let mut i: usize = 0;
    while i < n
        invariant
            n == s@.len(),
            0 <= i <= n,
            find_from(s@, c, 0) == find_from(s@, c, i as int),
        decreases n - i,
    {
        if s.get_char(i) == c {
            return Some(i);
        }
        i = i + 1;
    }
    None
}

/// Last index of `c` in `s`.
pub fn rfind_char(s: &str, c: char) -> (r: Option<usize>)
    ensures
        match r {
            Some(j) => rfind_spec(s@, c) == Some(j as int),
            None => rfind_spec(s@, c) is None,
        },
{
    let n = s.unicode_len();
    let mut i: usize = n;
    while i > 0
        invariant
            n == s@.len(),
            0 <= i <= n,
            rfind_spec(s@, c) == rfind_from(s@, c, i as int),
        decreases i,
    {
        if s.get_char(i - 1) == c {
            return Some(i - 1);
        }
        i = i - 1;
    }
    None
}

/// True for the ASCII whitespace characters (space, tab, carriage return,
/// line feed, vertical tab, form feed).
pub open spec fn is_space(c: char) -> bool {
    c as u32 == 32 || (9 <= c as u32 && c as u32 <= 13)
}

/// Executable test for [`is_digit_char`].
pub fn is_ascii_digit(c: char) -> (r: bool)
    ensures
        r == is_digit_char(c),
{
    let x = c as u32;
    48 <= x && x <= 57
}

/// Executable test for [`is_space`].
pub fn is_space_char(c: char) -> (r: bool)
    ensures
        r == is_space(c),
{
    let x = c as u32;
    x == 32 || (9 <= x && x <= 13)
}

/// First index at or after `i` holding a non-space character.
pub open spec fn skip_ws(s: Seq<char>, i: int) -> int
    decreases s.len() - i,
{
    if i < 0 || i >= s.len() {
        i
    } else if is_space(s[i]) {
        skip_ws(s, i + 1)
    } else {
        i
    }
}

/// Last index at or before `i` such that everything from it up to `i` is
/// whitespace.
pub open spec fn rskip_ws(s: Seq<char>, i: int) -> int
    decreases i,
{
    if i <= 0 || i > s.len() {
        i
    } else if is_space(s[i - 1]) {
        rskip_ws(s, i - 1)
    } else {
        i
    }
}

/// End of the whitespace-free token starting at `i`.
pub open spec fn token_end(s: Seq<char>, i: int) -> int
    decreases s.len() - i,
{
    if i < 0 || i >= s.len() {
        i
    } else if is_space(s[i]) {
        i
    } else {
        token_end(s, i + 1)
    }
}

pub proof fn lemma_token_end_bounds(s: Seq<char>, i: int)
    requires
        0 <= i <= s.len(),
    ensures
        i <= token_end(s, i) <= s.len(),
        i < s.len() && !is_space(s[i]) ==> i < token_end(s, i),
    decreases s.len() - i,
{
    if i < s.len() && !is_space(s[i]) {
        lemma_token_end_bounds(s, i + 1);
    }
}

/// The whitespace-separated tokens of `s`, from `i` on.
pub open spec fn ws_tokens_from(s: Seq<char>, i: int) -> Seq<Seq<char>>
    decreases s.len() - i,
{
    if i < 0 || i >= s.len() {
        Seq::empty()
    } else if is_space(s[i]) {
        ws_tokens_from(s, i + 1)
    } else {
        let k = token_end(s, i);
        proof {
            lemma_token_end_bounds(s, i);
        }
        seq![s.subrange(i, k)] + ws_tokens_from(s, k)
    }
}

/// The whitespace-separated tokens of `s`, as the standard library's
/// whitespace splitting produces them for ASCII input.
pub open spec fn ws_tokens(s: Seq<char>) -> Seq<Seq<char>> {
    ws_tokens_from(s, 0)
}

/// Split `s` at whitespace into its tokens.
pub fn split_ws(s: &str) -> (r: Vec<String>)
    ensures
        r.deep_view() == ws_tokens(s@),
{
    let n = s.unicode_len();
    let mut out: Vec<String> = Vec::new();
    let mut i: usize = 0;
    while i < n
        invariant
            n == s@.len(),
            0 <= i <= n,
            out.deep_view() + ws_tokens_from(s@, i as int) == ws_tokens(s@),
        decreases n - i,
    {
        let c = s.get_char(i);
        if is_space_char(c) {
            i = i + 1;
        } else {
            let ghost start = i as int;
            let mut k = i + 1;
            proof {
                lemma_token_end_bounds(s@, start);
            }
            while k < n && !is_space_char(s.get_char(k))
                invariant
                    n == s@.len(),
                    0 <= start < k <= n,
                    token_end(s@, start) == token_end(s@, k as int),
                decreases n - k,
            {
                k = k + 1;
            }
            proof {
                assert(token_end(s@, k as int) == k);
                assert(ws_tokens_from(s@, start) == seq![s@.subrange(start, k as int)]
                    + ws_tokens_from(s@, k as int));
            }
            let tok = s.substring_char(i, k);
            out.push(string_of(tok));
            proof {
                assert(out.deep_view() + ws_tokens_from(s@, k as int) =~= ws_tokens(s@));
            }
            i = k;
        }
    }
    proof {
        assert(out.deep_view() =~= ws_tokens(s@));
    }
    out
}

/// Own a string slice.
pub fn string_of(s: &str) -> (r: String)
    ensures
        r@ == s@,
{
    String::from_str(s)
}

/// `s` with leading and trailing ASCII whitespace removed.
pub open spec fn trim_spec(s: Seq<char>) -> Seq<char> {
    let a = skip_ws(s, 0);
    let b = rskip_ws(s, s.len() as int);
    if a < b {
        s.subrange(a, b)
    } else {
        Seq::empty()
    }
}

/// Remove leading and trailing ASCII whitespace.
pub fn trim<'a>(s: &'a str) -> (r: &'a str)
    ensures
        r@ == trim_spec(s@),
{
    let n = s.unicode_len();
    let mut a: usize = 0;
    while a < n && is_space_char(s.get_char(a))
        invariant
            n == s@.len(),
            0 <= a <= n,
            skip_ws(s@, 0) == skip_ws(s@, a as int),
        decreases n - a,
    {
        a = a + 1;
    }
    proof {
        assert(skip_ws(s@, a as int) == a);
    }
    let mut b: usize = n;
    while b > 0 && is_space_char(s.get_char(b - 1))
        invariant
            n == s@.len(),
            0 <= b <= n,
            rskip_ws(s@, n as int) == rskip_ws(s@, b as int),
        decreases b,
    {
        b = b - 1;
    }
    proof {
        assert(rskip_ws(s@, b as int) == b);
    }
    if a < b {
        s.substring_char(a, b)
    } else {
        let r = s.substring_char(0, 0);
        proof {
            assert(r@ =~= trim_spec(s@));
        }
        r
    }
}

/// True when `pat` occurs in `s` starting at `i`.
pub open spec fn matches_at(s: Seq<char>, pat: Seq<char>, i: int) -> bool {
    0 <= i && i + pat.len() <= s.len() && s.subrange(i, i + pat.len() as int) == pat
}

/// First index at or after `i` where `pat` occurs in `s`.
pub open spec fn find_sub_from(s: Seq<char>, pat: Seq<char>, i: int) -> Option<int>
    decreases s.len() - i,
{
    if i < 0 || i + pat.len() > s.len() {
        None
    } else if matches_at(s, pat, i) {
        Some(i)
    } else {
        proof {
            if pat.len() == 0 {
                assert(s.subrange(i, i + pat.len() as int) =~= pat);
            }
        }
        find_sub_from(s, pat, i + 1)
    }
}

pub proof fn lemma_find_sub_from_props(s: Seq<char>, pat: Seq<char>, i: int)
    requires
        0 <= i,
    ensures
        match find_sub_from(s, pat, i) {
            Some(j) => i <= j && j + pat.len() <= s.len() && matches_at(s, pat, j),
            None => true,
        },
    decreases s.len() - i,
{
    if !(i + pat.len() > s.len()) && !matches_at(s, pat, i) {
        if pat.len() == 0 {
            assert(s.subrange(i, i + pat.len() as int) =~= pat);
        }
        lemma_find_sub_from_props(s, pat, i + 1);
    }
}

/// First occurrence of the string `pat` inside `s`.
pub fn find_sub(s: &str, pat: &str) -> (r: Option<usize>)
    ensures
        match r {
            Some(j) => find_sub_from(s@, pat@, 0) == Some(j as int),
            None => find_sub_from(s@, pat@, 0) is None,
        },
{
    let n = s.unicode_len();
    let m = pat.unicode_len();
    if m > n {
        return None;
    }
    if m == 0 {
        proof {
            assert(s@.subrange(0, 0) =~= pat@);
        }
        return Some(0);
    }
    let mut i: usize = 0;
    while i <= n - m
        invariant
            n == s@.len(),
            m == pat@.len(),
            1 <= m <= n,
            0 <= i <= n - m + 1,
            find_sub_from(s@, pat@, 0) == find_sub_from(s@, pat@, i as int),
        decreases n - i,
    {
        let mut j: usize = 0;
        let mut matched = true;
        while j < m
            invariant
                n == s@.len(),
                m == pat@.len(),
                0 <= i <= n - m,
                0 <= j <= m,
                matched ==> forall|k: int| 0 <= k < j ==> s@[i + k] == pat@[k],
                !matched ==> !matches_at(s@, pat@, i as int),
            decreases m - j,
        {
            if s.get_char(i + j) != pat.get_char(j) {
                proof {
                    if matches_at(s@, pat@, i as int) {
                        assert(s@.subrange(i as int, i as int + m as int)[j as int]
                            == pat@[j as int]);
                    }
                }
                matched = false;
                j = m;
            } else {
                j = j + 1;
            }
        }
        if matched {
            proof {
                assert(s@.subrange(i as int, i as int + m as int) =~= pat@);
            }
            return Some(i);
        }
        i = i + 1;
    }
    None
}

/// The lower-case code point for an ASCII letter; other codes unchanged.
pub open spec fn lower_code(x: u32) -> int {
    if 65 <= x && x <= 90 {
        x + 32
    } else {
        x as int
    }
}

/// Executable [`lower_code`].
pub fn lower_code_of(c: char) -> (r: u32)
    ensures
        r as int == lower_code(c as u32),
{
    let x = c as u32;
    if 65 <= x && x <= 90 {
        x + 32
    } else {
        x
    }
}

/// True when `pat` occurs in `s` at `i`, comparing ASCII letters without
/// regard to case.
pub open spec fn ci_matches_at(s: Seq<char>, pat: Seq<char>, i: int) -> bool {
    0 <= i && i + pat.len() <= s.len() && forall|j: int|
        0 <= j < pat.len() ==> lower_code(#[trigger] s[i + j] as u32) == lower_code(
            pat[j] as u32,
        )
}

/// True when `pat` occurs somewhere in `s`, ignoring ASCII case.
pub open spec fn ci_contains(s: Seq<char>, pat: Seq<char>) -> bool {
    exists|i: int| ci_matches_at(s, pat, i)
}

/// Substring search ignoring ASCII case.
pub fn ci_contains_sub(s: &str, pat: &str) -> (r: bool)
    ensures
        r == ci_contains(s@, pat@),
{
    let n = s.unicode_len();
    let m = pat.unicode_len();
    if m > n {
        proof {
            assert(forall|i: int| !ci_matches_at(s@, pat@, i));
        }
        return false;
    }
    if m == 0 {
        proof {
            assert(ci_matches_at(s@, pat@, 0));
        }
        return true;
    }
    let mut i: usize = 0;
    while i <= n - m
        invariant
            n == s@.len(),
            m == pat@.len(),
            1 <= m <= n,
            0 <= i <= n - m + 1,
            forall|k: int| 0 <= k < i ==> !ci_matches_at(s@, pat@, k),
        decreases n - i,
    {
        let mut j: usize = 0;
        let mut matched = true;
        while j < m
            invariant
                n == s@.len(),
                m == pat@.len(),
                0 <= i <= n - m,
                0 <= j <= m,
                matched ==> forall|k: int|
                    0 <= k < j ==> lower_code(#[trigger] s@[i + k] as u32) == lower_code(
                        pat@[k] as u32,
                    ),
                !matched ==> !ci_matches_at(s@, pat@, i as int),
            decreases m - j,
        {
            if lower_code_of(s.get_char(i + j)) != lower_code_of(pat.get_char(j)) {
                matched = false;
                j = m;
            } else {
                j = j + 1;
            }
        }
        if matched {
            proof {
                assert(ci_matches_at(s@, pat@, i as int));
            }
            return true;
        }
        i = i + 1;
    }
    proof {
        assert forall|k: int| !ci_matches_at(s@, pat@, k) by {
            if 0 <= k <= n - m {
                assert(!ci_matches_at(s@, pat@, k));
            }
        }
    }
    false
}

/// Pointwise equality of two strings ignoring ASCII case.
pub open spec fn ci_eq(a: Seq<char>, b: Seq<char>) -> bool {
    a.len() == b.len() && forall|j: int|
        0 <= j < a.len() ==> lower_code(#[trigger] a[j] as u32) == lower_code(b[j] as u32)
}

/// String equality ignoring ASCII case.
pub fn eq_ignore_case(a: &str, b: &str) -> (r: bool)
    ensures
        r == ci_eq(a@, b@),
{
    let n = a.unicode_len();
    let m = b.unicode_len();
    if n != m {
        return false;
    }
    let mut i: usize = 0;
    while i < n
        invariant
            n == a@.len(),
            n == b@.len(),
            0 <= i <= n,
            forall|j: int|
                0 <= j < i ==> lower_code(#[trigger] a@[j] as u32) == lower_code(b@[j] as u32),
        decreases n - i,
    {
        if lower_code_of(a.get_char(i)) != lower_code_of(b.get_char(i)) {
            return false;
        }
        i = i + 1;
    }
    true
}

/// First index at or after `i` holding a character other than `c`.
pub open spec fn skip_char(s: Seq<char>, c: char, i: int) -> int
    decreases s.len() - i,
{
    if i < 0 || i >= s.len() {
        i
    } else if s[i] == c {
        skip_char(s, c, i + 1)
    } else {
        i
    }
}

/// Last index at or before `i` such that everything from it up to `i` is
/// the character `c`.
pub open spec fn rskip_char(s: Seq<char>, c: char, i: int) -> int
    decreases i,
{
    if i <= 0 || i > s.len() {
        i
    } else if s[i - 1] == c {
        rskip_char(s, c, i - 1)
    } else {
        i
    }
}

/// End of the run of ASCII digits starting at `i`.
pub open spec fn digits_end(s: Seq<char>, i: int) -> int
    decreases s.len() - i,
{
    if i < 0 || i >= s.len() {
        i
    } else if is_digit_char(s[i]) {
        digits_end(s, i + 1)
    } else {
        i
    }
}

/// First line-feed position at or after `i`, or the end of `s`.
pub open spec fn line_end(s: Seq<char>, i: int) -> int
    decreases s.len() - i,
{
    if i < 0 || i >= s.len() {
        i
    } else if s[i] == '\n' {
        i
    } else {
        line_end(s, i + 1)
    }
}

pub proof fn lemma_line_end_bounds(s: Seq<char>, i: int)
    requires
        0 <= i <= s.len(),
    ensures
        i <= line_end(s, i) <= s.len(),
    decreases s.len() - i,
{
    if i < s.len() && s[i] != '\n' {
        lemma_line_end_bounds(s, i + 1);
    }
}

/// The lines of `s` from `i` on, split at line feeds; a trailing line feed
/// produces no extra empty line.
pub open spec fn lines_from(s: Seq<char>, i: int) -> Seq<Seq<char>>
    decreases s.len() - i,
{
    if i < 0 || i >= s.len() {
        Seq::empty()
    } else {
        let e = line_end(s, i);
        proof {
            lemma_line_end_bounds(s, i);
        }
        if e >= s.len() {
            seq![s.subrange(i, e)]
        } else {
            seq![s.subrange(i, e)] + lines_from(s, e + 1)
        }
    }
}

/// The lines of `s`.
pub open spec fn lines_spec(s: Seq<char>) -> Seq<Seq<char>> {
    lines_from(s, 0)
}

/// Split `s` into its lines.
pub fn split_lines(s: &str) -> (r: Vec<String>)
    ensures
        r.deep_view() == lines_spec(s@),
{
    let n = s.unicode_len();
    let mut out: Vec<String> = Vec::new();
    let mut i: usize = 0;
    while i < n
        invariant
            n == s@.len(),
            0 <= i <= n,
            out.deep_view() + lines_from(s@, i as int) == lines_spec(s@),
        decreases n - i,
    {
        let ghost start = i as int;
        let mut k = i;
        while k < n && s.get_char(k) != '\n'
            invariant
                n == s@.len(),
                0 <= start <= k <= n,
                line_end(s@, start) == line_end(s@, k as int),
            decreases n - k,
        {
            k = k + 1;
        }
        proof {
            assert(line_end(s@, k as int) == k);
        }
        let line = s.substring_char(i, k);
        out.push(string_of(line));
        proof {
            assert(out.deep_view() + lines_from(s@, k as int + 1) =~= lines_spec(s@));
        }
        if k < n {
            i = k + 1;
        } else {
            i = n;
        }
    }
    proof {
        assert(out.deep_view() =~= lines_spec(s@));
    }
    out
}

/// `s` with its run of leading `lead` characters and then its run of
/// trailing `trail` characters removed.
pub open spec fn strip_ends_spec(s: Seq<char>, lead: char, trail: char) -> Seq<char> {
    let a = skip_char(s, lead, 0);
    let t = s.subrange(a, s.len() as int);
    let b = rskip_char(t, trail, t.len() as int);
    t.subrange(0, b)
}

/// Remove a run of `lead` characters at the front, then a run of `trail`
/// characters at the back of what is left.
pub fn strip_ends<'a>(s: &'a str, lead: char, trail: char) -> (r: &'a str)
    ensures
        r@ == strip_ends_spec(s@, lead, trail),
{
    let n = s.unicode_len();
    let mut a: usize = 0;
    while a < n && s.get_char(a) == lead
        invariant
            n == s@.len(),
            0 <= a <= n,
            skip_char(s@, lead, 0) == skip_char(s@, lead, a as int),
        decreases n - a,
    {
        a = a + 1;
    }
    proof {
        assert(skip_char(s@, lead, a as int) == a);
    }
    let ghost t = s@.subrange(a as int, n as int);
    let mut b: usize = n;
    while b > a && s.get_char(b - 1) == trail
        invariant
            n == s@.len(),
            0 <= a <= b <= n,
            t == s@.subrange(a as int, n as int),
            rskip_char(t, trail, t.len() as int) == rskip_char(t, trail, b - a as int),
        decreases b,
    {
        b = b - 1;
    }
    proof {
        assert(rskip_char(t, trail, b - a as int) == b - a as int);
        assert(t.subrange(0, b - a as int) =~= s@.subrange(a as int, b as int));
    }
    s.substring_char(a, b)
}

} // verus!
