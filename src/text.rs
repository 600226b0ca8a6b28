//! Character-level string operations with exact specifications.
//!
//! Work is done on `Vec<char>`; a `String`'s view is its sequence of
//! Unicode scalar values, so every offset here counts code points.

use vstd::prelude::*;

verus! {

/// Characters with the Unicode `White_Space` property (what `char::is_whitespace` accepts).
pub open spec fn is_space(c: char) -> bool {
    let u = c as u32;
    (0x09 <= u && u <= 0x0d) || u == 0x20 || u == 0x85 || u == 0xa0 || u == 0x1680 || (0x2000
        <= u && u <= 0x200a) || u == 0x2028 || u == 0x2029 || u == 0x202f || u == 0x205f || u
        == 0x3000
}

/// Which characters a strip operation removes.
#[derive(Clone, Copy, PartialEq, Eq, Debug)]
pub enum CharClass {
    Space,
    Exactly(char),
}

pub open spec fn in_class(k: CharClass, c: char) -> bool {
    match k {
        CharClass::Space => is_space(c),
        CharClass::Exactly(x) => c == x,
    }
}

pub fn class_contains(k: CharClass, c: char) -> (r: bool)
    ensures
        r == in_class(k, c),
{
    match k {
        CharClass::Space => {
            let u = c as u32;
            (0x09 <= u && u <= 0x0d) || u == 0x20 || u == 0x85 || u == 0xa0 || u == 0x1680 || (
            0x2000 <= u && u <= 0x200a) || u == 0x2028 || u == 0x2029 || u == 0x202f || u
                == 0x205f || u == 0x3000
        },
        CharClass::Exactly(x) => c == x,
    }
}

/// First index at or after `i` whose character is not in `k`.
pub open spec fn skip_from(s: Seq<char>, k: CharClass, i: int) -> int
    decreases s.len() - i,
{
    if 0 <= i < s.len() && in_class(k, s[i]) {
        skip_from(s, k, i + 1)
    } else {
        i
    }
}

/// Scanning backwards from `j` (not below `lo`), the end of the run of characters not in `k`.
pub open spec fn back_from(s: Seq<char>, k: CharClass, lo: int, j: int) -> int
    decreases j - lo,
{
    if lo < j && j <= s.len() && in_class(k, s[j - 1]) {
        back_from(s, k, lo, j - 1)
    } else {
        j
    }
}

/// `s` without its leading characters of class `k`.
pub open spec fn strip_start(s: Seq<char>, k: CharClass) -> Seq<char> {
    s.subrange(skip_from(s, k, 0), s.len() as int)
}

/// `s` without its leading and trailing characters of class `k`.
pub open spec fn strip_both(s: Seq<char>, k: CharClass) -> Seq<char> {
    let a = skip_from(s, k, 0);
    s.subrange(a, back_from(s, k, a, s.len() as int))
}

/// `s.trim()`.
pub open spec fn trimmed(s: Seq<char>) -> Seq<char> {
    strip_both(s, CharClass::Space)
}

pub open spec fn occurs_at(h: Seq<char>, n: Seq<char>, i: int) -> bool {
    0 <= i && i + n.len() <= h.len() && h.subrange(i, i + n.len()) == n
}

/// Leftmost occurrence of `n` in `h` at or after `i`.
pub open spec fn find_from(h: Seq<char>, n: Seq<char>, i: int) -> Option<int>
    decreases h.len() - i,
{
    if i < 0 || i + n.len() > h.len() {
        None
    } else if occurs_at(h, n, i) {
        Some(i)
    } else if i >= h.len() {
        None
    } else {
        find_from(h, n, i + 1)
    }
}

pub open spec fn find(h: Seq<char>, n: Seq<char>) -> Option<int> {
    find_from(h, n, 0)
}

pub open spec fn includes(h: Seq<char>, n: Seq<char>) -> bool {
    find(h, n) is Some
}

/// Last index below `j` holding `c`.
pub open spec fn last_below(s: Seq<char>, c: char, j: int) -> Option<int>
    decreases j,
{
    if j <= 0 || j > s.len() {
        None
    } else if s[j - 1] == c {
        Some(j - 1)
    } else {
        last_below(s, c, j - 1)
    }
}

/// First index at or after `i` holding `c`, or the length.
pub open spec fn stop_from(s: Seq<char>, c: char, i: int) -> int
    decreases s.len() - i,
{
    if 0 <= i < s.len() && s[i] != c {
        stop_from(s, c, i + 1)
    } else {
        i
    }
}

/// The characters from `start` up to the first `c` (the first piece of `split(c)`).
pub open spec fn before_char(s: Seq<char>, start: int, c: char) -> Seq<char> {
    s.subrange(start, stop_from(s, c, start))
}

pub open spec fn starts_with_char(s: Seq<char>, c: char) -> bool {
    s.len() > 0 && s[0] == c
}

/// Removes every non-overlapping occurrence of `p`, scanning left to right from `i`.
pub open spec fn remove_all_from(s: Seq<char>, p: Seq<char>, i: int) -> Seq<char>
    decreases s.len() - i,
{
    if i < 0 || i >= s.len() {
        Seq::empty()
    } else if p.len() > 0 && occurs_at(s, p, i) {
        remove_all_from(s, p, i + p.len())
    } else {
        seq![s[i]] + remove_all_from(s, p, i + 1)
    }
}

/// Index after stripping `p` repeatedly from the front, starting at `i`.
pub open spec fn prefix_skip_from(s: Seq<char>, p: Seq<char>, i: int) -> int
    decreases s.len() - i,
{
    if p.len() > 0 && 0 <= i && occurs_at(s, p, i) {
        prefix_skip_from(s, p, i + p.len())
    } else {
        i
    }
}

/// `s.trim_start_matches(p)` for a string pattern `p`.
pub open spec fn strip_prefix_all(s: Seq<char>, p: Seq<char>) -> Seq<char> {
    s.subrange(prefix_skip_from(s, p, 0), s.len() as int)
}

pub open spec fn digit_char(d: nat) -> char {
    ((48 + d) as u8) as char
}

/// Decimal digits of `n`, without sign or leading zeros.
pub open spec fn decimal(n: nat) -> Seq<char>
    decreases n,
{
    if n < 10 {
        seq![digit_char(n)]
    } else {
        decimal(n / 10).push(digit_char(n % 10))
    }
}

pub open spec fn is_digit(c: char) -> bool {
    '0' <= c && c <= '9'
}

pub open spec fn digits_value(s: Seq<char>) -> nat
    decreases s.len(),
{
    if s.len() == 0 {
        0
    } else {
        digits_value(s.drop_last()) * 10 + ((s.last() as u32) - 48) as nat
    }
}

/// The digits part of an unsigned number: without one leading `+`.
pub open spec fn unsigned_digits(s: Seq<char>) -> Seq<char> {
    if starts_with_char(s, '+') {
        s.drop_first()
    } else {
        s
    }
}

pub open spec fn all_digits(d: Seq<char>) -> bool {
    forall|i: int| 0 <= i < d.len() ==> is_digit(#[trigger] d[i])
}

/// What `str::parse::<u64>` gives: an optional `+`, then one or more digits, in range.
pub open spec fn parse_u64(s: Seq<char>) -> Option<u64> {
    let d = unsigned_digits(s);
    if d.len() > 0 && all_digits(d) && digits_value(d) <= u64::MAX {
        Some(digits_value(d) as u64)
    } else {
        None
    }
}

pub open spec fn hex_digit(n: nat) -> char {
    if n < 10 {
        ((48 + n) as u8) as char
    } else {
        ((55 + n) as u8) as char
    }
}

/// `#RRGGBB` in upper-case hexadecimal.
pub open spec fn hex_color(r: u8, g: u8, b: u8) -> Seq<char> {
    seq![
        '#',
        hex_digit(r as nat / 16),
        hex_digit(r as nat % 16),
        hex_digit(g as nat / 16),
        hex_digit(g as nat % 16),
        hex_digit(b as nat / 16),
        hex_digit(b as nat % 16),
    ]
}

/// Relies on `str::chars`: the characters of `s` in order.
#[verifier::external_body]
pub(crate) fn chars_of(s: &str) -> (r: Vec<char>)
    ensures
        r@ == s@,
{
    s.chars().collect()
}

/// Relies on `String: FromIterator<char>`: the string made of these characters.
#[verifier::external_body]
pub(crate) fn string_of(v: &Vec<char>) -> (r: String)
    ensures
        r@ == v@,
{
    v.iter().collect()
}

pub fn slice(s: &Vec<char>, a: usize, b: usize) -> (r: Vec<char>)
    requires
        a <= b <= s@.len(),
    ensures
        r@ == s@.subrange(a as int, b as int),
{
    let mut r: Vec<char> = Vec::new();
    let mut i: usize = a;
    while i < b
        invariant
            a <= i <= b <= s@.len(),
            r@ == s@.subrange(a as int, i as int),
        decreases b - i,
    {
        r.push(s[i]);
        i = i + 1;
        assert(r@ =~= s@.subrange(a as int, i as int));
    }
    r
}

pub fn push_all(dst: &mut Vec<char>, src: &Vec<char>)
    ensures
        final(dst)@ == old(dst)@ + src@,
{
    let ghost start = dst@;
    let mut i: usize = 0;
    while i < src.len()
        invariant
            i <= src@.len(),
            dst@ == start + src@.subrange(0, i as int),
        decreases src@.len() - i,
    {
        dst.push(src[i]);
        i = i + 1;
        assert(dst@ =~= start + src@.subrange(0, i as int));
    }
    assert(src@.subrange(0, src@.len() as int) =~= src@);
}

pub fn push_str(dst: &mut Vec<char>, s: &str)
    ensures
        final(dst)@ == old(dst)@ + s@,
{
    let v = chars_of(s);
    push_all(dst, &v);
}

pub fn skip_index(s: &Vec<char>, k: CharClass, start: usize) -> (r: usize)
    requires
        start <= s@.len(),
    ensures
        r as int == skip_from(s@, k, start as int),
        start <= r <= s@.len(),
{
    let mut i = start;
    while i < s.len() && class_contains(k, s[i])
        invariant
            start <= i <= s@.len(),
            skip_from(s@, k, start as int) == skip_from(s@, k, i as int),
        decreases s@.len() - i,
    {
        i = i + 1;
    }
    i
}

pub fn back_index(s: &Vec<char>, k: CharClass, lo: usize) -> (r: usize)
    requires
        lo <= s@.len(),
    ensures
        r as int == back_from(s@, k, lo as int, s@.len() as int),
        lo <= r <= s@.len(),
{
    let mut j = s.len();
    while lo < j && class_contains(k, s[j - 1])
        invariant
            lo <= j <= s@.len(),
            back_from(s@, k, lo as int, s@.len() as int) == back_from(s@, k, lo as int, j as int),
        decreases j - lo,
    {
        j = j - 1;
    }
    j
}

pub fn strip_start_chars(s: &Vec<char>, k: CharClass) -> (r: Vec<char>)
    ensures
        r@ == strip_start(s@, k),
{
    let a = skip_index(s, k, 0);
    slice(s, a, s.len())
}

pub fn strip_both_chars(s: &Vec<char>, k: CharClass) -> (r: Vec<char>)
    ensures
        r@ == strip_both(s@, k),
{
    let a = skip_index(s, k, 0);
    let b = back_index(s, k, a);
    slice(s, a, b)
}

/// `s.trim()`, as characters.
pub fn trim_chars(s: &str) -> (r: Vec<char>)
    ensures
        r@ == trimmed(s@),
{
    let v = chars_of(s);
    strip_both_chars(&v, CharClass::Space)
}

/// `s.trim()`.
pub fn trim(s: &str) -> (r: String)
    ensures
        r@ == trimmed(s@),
{
    let v = trim_chars(s);
    string_of(&v)
}

pub fn occurs(h: &Vec<char>, n: &Vec<char>, i: usize) -> (r: bool)
    ensures
        r == occurs_at(h@, n@, i as int),
{
    if n.len() > h.len() || i > h.len() - n.len() {
        return false;
    }
    let hl = h.len();
    let mut k: usize = 0;
    while k < n.len()
        invariant
            hl == h@.len(),
            i + n@.len() <= h@.len(),
            k <= n@.len(),
            forall|t: int| 0 <= t < k ==> h@[i + t] == n@[t],
        decreases n@.len() - k,
    {
        if h[i + k] != n[k] {
            assert(h@.subrange(i as int, i + n@.len())[k as int] != n@[k as int]);
            return false;
        }
        k = k + 1;
    }
    assert(h@.subrange(i as int, i + n@.len()) =~= n@);
    true
}

pub fn find_chars(h: &Vec<char>, n: &Vec<char>) -> (r: Option<usize>)
    ensures
        match r {
            Some(i) => find(h@, n@) == Some(i as int) && i + n@.len() <= h@.len(),
            None => find(h@, n@) is None,
        },
{
    let mut i: usize = 0;
    while i <= h.len()
        invariant
            find(h@, n@) == find_from(h@, n@, i as int),
        decreases h@.len() + 1 - i,
    {
        if n.len() > h.len() || i > h.len() - n.len() {
            return None;
        }
        if occurs(h, n, i) {
            return Some(i);
        }
        if i == h.len() {
            return None;
        }
        i = i + 1;
    }
    None
}

pub fn contains_str(h: &Vec<char>, n: &str) -> (r: bool)
    ensures
        r == includes(h@, n@),
{
    let nv = chars_of(n);
    find_chars(h, &nv).is_some()
}

pub fn find_str(h: &Vec<char>, n: &str) -> (r: Option<usize>)
    ensures
        match r {
            Some(i) => find(h@, n@) == Some(i as int) && i + n@.len() <= h@.len(),
            None => find(h@, n@) is None,
        },
{
    let nv = chars_of(n);
    find_chars(h, &nv)
}

pub fn rfind_char(s: &Vec<char>, c: char) -> (r: Option<usize>)
    ensures
        match r {
            Some(i) => last_below(s@, c, s@.len() as int) == Some(i as int) && i < s@.len(),
            None => last_below(s@, c, s@.len() as int) is None,
        },
{
    let mut j = s.len();
    while j > 0
        invariant
            j <= s@.len(),
            last_below(s@, c, s@.len() as int) == last_below(s@, c, j as int),
        decreases j,
    {
        if s[j - 1] == c {
            return Some(j - 1);
        }
        j = j - 1;
    }
    None
}

/// The characters from `start` up to the first `c`.
pub fn take_until(s: &Vec<char>, start: usize, c: char) -> (r: Vec<char>)
    requires
        start <= s@.len(),
    ensures
        r@ == before_char(s@, start as int, c),
{
    let mut i = start;
    while i < s.len() && s[i] != c
        invariant
            start <= i <= s@.len(),
            stop_from(s@, c, start as int) == stop_from(s@, c, i as int),
        decreases s@.len() - i,
    {
        i = i + 1;
    }
    slice(s, start, i)
}

/// Removes every occurrence of `p` (what `str::replace(p, "")` does).
pub fn remove_all(s: &Vec<char>, p: &Vec<char>) -> (r: Vec<char>)
    ensures
        r@ == remove_all_from(s@, p@, 0),
{
    let mut out: Vec<char> = Vec::new();
    let mut i: usize = 0;
    while i < s.len()
        invariant
            i <= s@.len(),
            out@ + remove_all_from(s@, p@, i as int) == remove_all_from(s@, p@, 0),
        decreases s@.len() - i,
    {
        if p.len() > 0 && occurs(s, p, i) {
            i = i + p.len();
        } else {
            let ghost before = out@;
            out.push(s[i]);
            assert(out@ + remove_all_from(s@, p@, i + 1) =~= before + remove_all_from(
                s@,
                p@,
                i as int,
            ));
            i = i + 1;
        }
    }
    assert(out@ + remove_all_from(s@, p@, i as int) =~= out@);
    out
}


/// `s.trim_start_matches(p)` for a string pattern.
pub fn strip_prefix_all_chars(s: &Vec<char>, p: &Vec<char>) -> (r: Vec<char>)
    ensures
        r@ == strip_prefix_all(s@, p@),
{
    let sl = s.len();
    let mut i: usize = 0;
    while p.len() > 0 && occurs(s, p, i)
        invariant
            sl == s@.len(),
            i <= s@.len(),
            prefix_skip_from(s@, p@, 0) == prefix_skip_from(s@, p@, i as int),
        decreases s@.len() - i,
    {
        i = i + p.len();
    }
    slice(s, i, s.len())
}

pub fn push_decimal(out: &mut Vec<char>, n: u64)
    ensures
        final(out)@ == old(out)@ + decimal(n as nat),
    decreases n,
{
    if n >= 10 {
        push_decimal(out, n / 10);
    }
    let ghost mid = out@;
    out.push(((48 + n % 10) as u8) as char);
    assert(out@ =~= old(out)@ + decimal(n as nat));
}

/// Decimal text of `n`.
pub fn decimal_string(n: u64) -> (r: String)
    ensures
        r@ == decimal(n as nat),
{
    let mut v: Vec<char> = Vec::new();
    push_decimal(&mut v, n);
    assert(v@ =~= decimal(n as nat));
    string_of(&v)
}

proof fn lemma_digits_value_prefix(s: Seq<char>, k: int)
    requires
        0 <= k <= s.len(),
    ensures
        digits_value(s) >= digits_value(s.subrange(0, k)),
    decreases s.len(),
{
    if k < s.len() {
        lemma_digits_value_prefix(s.drop_last(), k);
        assert(s.drop_last().subrange(0, k) =~= s.subrange(0, k));
    } else {
        assert(s.subrange(0, k) =~= s);
    }
}

proof fn lemma_step_fits(acc: nat, d: nat)
    requires
        d < 10,
        acc <= (u64::MAX - d) / 10,
    ensures
        acc * 10 + d <= u64::MAX,
{
    assert(acc * 10 + d <= u64::MAX) by (nonlinear_arith)
        requires
            d < 10,
            acc <= (u64::MAX - d) / 10,
    ;
}

proof fn lemma_step_overflows(acc: nat, d: nat)
    requires
        d < 10,
        acc > (u64::MAX - d) / 10,
    ensures
        acc * 10 + d > u64::MAX,
{
    assert(acc * 10 + d > u64::MAX) by (nonlinear_arith)
        requires
            d < 10,
            acc > (u64::MAX - d) / 10,
    ;
}

/// `s.parse::<u64>().ok()`.
pub fn parse_u64_chars(s: &Vec<char>) -> (r: Option<u64>)
    ensures
        r == parse_u64(s@),
{
    let start: usize = if s.len() > 0 && s[0] == '+' {
        1
    } else {
        0
    };
    let ghost d = unsigned_digits(s@);
    assert(d =~= s@.subrange(start as int, s@.len() as int));
    if start >= s.len() {
        return None;
    }
    let mut acc: u64 = 0;
    let mut i: usize = start;
    while i < s.len()
        invariant
            start <= i <= s@.len(),
            d == unsigned_digits(s@),
            d == s@.subrange(start as int, s@.len() as int),
            acc as nat == digits_value(d.subrange(0, i - start)),
            forall|t: int| 0 <= t < i - start ==> is_digit(#[trigger] d[t]),
        decreases s@.len() - i,
    {
        let c = s[i];
        if !('0' <= c && c <= '9') {
            assert(!is_digit(d[i - start]));
            assert(!all_digits(d));
            assert(parse_u64(s@) is None);
            return None;
        }
        let dv = (c as u32 - 48) as u64;
        let ghost pre = d.subrange(0, i - start);
        let ghost next = d.subrange(0, i + 1 - start);
        assert(next.drop_last() =~= pre);
        assert(next.last() == c);
        if acc > (u64::MAX - dv) / 10 {
            proof {
                lemma_step_overflows(acc as nat, dv as nat);
                lemma_digits_value_prefix(d, i + 1 - start);
                assert(digits_value(next) == digits_value(pre) * 10 + dv as nat);
                assert(digits_value(d) > u64::MAX);
                assert(parse_u64(s@) is None);
            }
            return None;
        }
        proof {
            lemma_step_fits(acc as nat, dv as nat);
        }
        acc = acc * 10 + dv;
        i = i + 1;
    }
    assert(d.subrange(0, d.len() as int) =~= d);
    Some(acc)
}

/// `s.parse::<u64>().ok()`.
pub fn parse_u64_str(s: &str) -> (r: Option<u64>)
    ensures
        r == parse_u64(s@),
{
    let v = chars_of(s);
    parse_u64_chars(&v)
}

fn hex_char(n: u8) -> (c: char)
    requires
        n < 16,
    ensures
        c == hex_digit(n as nat),
{
    if n < 10 {
        ((48 + n) as u8) as char
    } else {
        ((55 + n) as u8) as char
    }
}

/// `format!("#{:02X}{:02X}{:02X}", r, g, b)`.
pub fn hex_color_string(r: u8, g: u8, b: u8) -> (s: String)
    ensures
        s@ == hex_color(r, g, b),
{
    let mut v: Vec<char> = Vec::new();
    v.push('#');
    v.push(hex_char(r / 16));
    v.push(hex_char(r % 16));
    v.push(hex_char(g / 16));
    v.push(hex_char(g % 16));
    v.push(hex_char(b / 16));
    v.push(hex_char(b % 16));
    assert(v@ =~= hex_color(r, g, b));
    string_of(&v)
}

/// Concatenation of two strings.
pub fn concat2(a: &str, b: &str) -> (r: String)
    ensures
        r@ == a@ + b@,
{
    let mut v = chars_of(a);
    push_str(&mut v, b);
    string_of(&v)
}

/// Concatenation of three strings.
pub fn concat3(a: &str, b: &str, c: &str) -> (r: String)
    ensures
        r@ == a@ + b@ + c@,
{
    let mut v = chars_of(a);
    push_str(&mut v, b);
    push_str(&mut v, c);
    string_of(&v)
}

pub uninterp spec fn lower_of(s: Seq<char>) -> Seq<char>;

/// Relies on `str::to_lowercase`: the result depends on the characters alone.
#[verifier::external_body]
pub(crate) fn to_lower(s: &str) -> (r: String)
    ensures
        r@ == lower_of(s@),
{
    s.to_lowercase()
}


/// Whether two strings hold the same characters.
pub fn same_text(a: &str, b: &str) -> (r: bool)
    ensures
        r == (a@ == b@),
{
    let av = chars_of(a);
    let bv = chars_of(b);
    if av.len() != bv.len() {
        return false;
    }
    let mut i: usize = 0;
    while i < av.len()
        invariant
            av@ == a@,
            bv@ == b@,
            av@.len() == bv@.len(),
            i <= av@.len(),
            forall|t: int| 0 <= t < i ==> av@[t] == bv@[t],
        decreases av@.len() - i,
    {
        if av[i] != bv[i] {
            assert(av@[i as int] != bv@[i as int]);
            return false;
        }
        i = i + 1;
    }
    assert(av@ =~= bv@);
    true
}


proof fn lemma_find_from_bound(h: Seq<char>, n: Seq<char>, i: int)
    ensures
        find_from(h, n, i) matches Some(p) ==> i <= p && p + n.len() <= h.len(),
    decreases h.len() - i,
{
    if i < 0 || i + n.len() > h.len() {
    } else if occurs_at(h, n, i) {
    } else if i >= h.len() {
    } else {
        lemma_find_from_bound(h, n, i + 1);
    }
}

/// A found occurrence lies inside the text.
pub proof fn lemma_find_bound(h: Seq<char>, n: Seq<char>)
    ensures
        find(h, n) matches Some(p) ==> 0 <= p && p + n.len() <= h.len(),
{
    lemma_find_from_bound(h, n, 0);
}

}
