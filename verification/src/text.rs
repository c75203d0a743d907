use vstd::prelude::*;
use vstd::string::StringSliceAdditionalSpecFns;

verus! {

// ---------------------------------------------------------------------------
// Byte classes
// ---------------------------------------------------------------------------
/// Whitespace accepted between tokens: space, tab, carriage return, newline.
pub open spec fn is_ws(b: u8) -> bool {
    b == 32 || b == 9 || b == 13 || b == 10
}

pub open spec fn is_digit(b: u8) -> bool {
    48 <= b <= 57
}

pub open spec fn is_alnum(b: u8) -> bool {
    is_digit(b) || (65 <= b <= 90) || (97 <= b <= 122)
}

/// Bytes permitted in a bare identifier: letters, digits and underscore.
pub open spec fn is_ident(b: u8) -> bool {
    is_alnum(b) || b == 95
}

/// The bytes that may close a reserved word so that it is a whole token:
/// space, newline, semicolon, opening parenthesis, tab, comma, equals sign.
pub open spec fn is_boundary(b: u8) -> bool {
    b == 32 || b == 10 || b == 59 || b == 40 || b == 9 || b == 44 || b == 61
}

#[derive(Clone, Copy, Debug, PartialEq, Eq, Structural)]
pub enum ByteClass {
    Ws,
    Digit,
    Alnum,
    Ident,
}

pub open spec fn in_class(c: ByteClass, b: u8) -> bool {
    match c {
        ByteClass::Ws => is_ws(b),
        ByteClass::Digit => is_digit(b),
        ByteClass::Alnum => is_alnum(b),
        ByteClass::Ident => is_ident(b),
    }
}

pub fn byte_in_class(c: ByteClass, b: u8) -> (r: bool)
    ensures
        r == in_class(c, b),
{
    match c {
        ByteClass::Ws => b == 32 || b == 9 || b == 13 || b == 10,
        ByteClass::Digit => 48 <= b && b <= 57,
        ByteClass::Alnum => (48 <= b && b <= 57) || (65 <= b && b <= 90) || (97 <= b && b
            <= 122),
        ByteClass::Ident => (48 <= b && b <= 57) || (65 <= b && b <= 90) || (97 <= b && b <= 122)
            || b == 95,
    }
}

pub fn byte_is_boundary(b: u8) -> (r: bool)
    ensures
        r == is_boundary(b),
{
    b == 32 || b == 10 || b == 59 || b == 40 || b == 9 || b == 44 || b == 61
}

// ---------------------------------------------------------------------------
// Scanning a run of one byte class
// ---------------------------------------------------------------------------
/// The first position at or after `i` holding a byte outside class `c` (or the
/// end of the input).
pub open spec fn spec_scan(s: Seq<u8>, i: int, c: ByteClass) -> int
    decreases s.len() - i,
{
    if 0 <= i < s.len() && in_class(c, s[i]) {
        spec_scan(s, i + 1, c)
    } else {
        i
    }
}

pub proof fn lemma_scan_bounds(s: Seq<u8>, i: int, c: ByteClass)
    requires
        0 <= i <= s.len(),
    ensures
        i <= spec_scan(s, i, c) <= s.len(),
        forall|k: int| i <= k < spec_scan(s, i, c) ==> in_class(c, s[k]),
        spec_scan(s, i, c) < s.len() ==> !in_class(c, s[spec_scan(s, i, c)]),
    decreases s.len() - i,
{
    if i < s.len() && in_class(c, s[i]) {
        lemma_scan_bounds(s, i + 1, c);
    }
}

/// A run known to consist of class bytes and to stop before a byte outside the
/// class scans to exactly its end.
pub proof fn lemma_scan_exact(s: Seq<u8>, i: int, e: int, c: ByteClass)
    requires
        0 <= i <= e <= s.len(),
        forall|k: int| i <= k < e ==> in_class(c, #[trigger] s[k]),
        e == s.len() || !in_class(c, s[e]),
    ensures
        spec_scan(s, i, c) == e,
    decreases e - i,
{
    if i < e {
        lemma_scan_exact(s, i + 1, e, c);
    }
}

pub fn scan(input: &[u8], pos: usize, c: ByteClass) -> (r: usize)
    requires
        pos <= input@.len(),
    ensures
        r == spec_scan(input@, pos as int, c),
        pos <= r <= input@.len(),
{
    let n = input.len();
    let mut j = pos;
    while j < n && byte_in_class(c, input[j])
        invariant
            pos <= j <= n,
            n == input@.len(),
            spec_scan(input@, pos as int, c) == spec_scan(input@, j as int, c),
        decreases n - j,
    {
        j += 1;
    }
    j
}

// ---------------------------------------------------------------------------
// Case-insensitive tags
// ---------------------------------------------------------------------------
/// ASCII case folding on character codes.
pub open spec fn lower_code(x: int) -> int {
    if 65 <= x <= 90 {
        x + 32
    } else {
        x
    }
}

pub open spec fn byte_matches_char_ci(b: u8, c: char) -> bool {
    lower_code(b as int) == lower_code(c as int)
}

/// The tag `t` matches the input case-insensitively, anchored at `i`.
pub open spec fn tag_matches(s: Seq<u8>, i: int, t: Seq<char>) -> bool {
    &&& 0 <= i
    &&& i + t.len() <= s.len()
    &&& forall|j: int| 0 <= j < t.len() ==> byte_matches_char_ci(s[i + j], #[trigger] t[j])
}

/// The input ends strictly inside the tag: every byte still available matches,
/// but the tag needs more.
pub open spec fn tag_prefix_to_end(s: Seq<u8>, i: int, t: Seq<char>) -> bool {
    &&& 0 <= i <= s.len()
    &&& s.len() - i < t.len()
    &&& forall|j: int| 0 <= j < s.len() - i ==> byte_matches_char_ci(s[i + j], #[trigger] t[j])
}

#[derive(Clone, Copy, Debug, PartialEq, Eq, Structural)]
pub enum TagMatch {
    Full,
    Prefix,
    Mismatch,
}

pub fn to_lower(b: u8) -> (r: u8)
    ensures
        r as int == lower_code(b as int),
{
    if 65 <= b && b <= 90 {
        b + 32
    } else {
        b
    }
}

/// Case-insensitive comparison of an ASCII tag against the input at `pos`,
/// telling a full match apart from the input running out mid-tag.
pub fn match_tag_full(input: &[u8], pos: usize, t: &str) -> (r: TagMatch)
    requires
        pos <= input@.len(),
        vstd::string::is_ascii(t),
    ensures
        r == TagMatch::Full <==> tag_matches(input@, pos as int, t@),
        r == TagMatch::Prefix <==> tag_prefix_to_end(input@, pos as int, t@),
{
    broadcast use vstd::string::is_ascii_spec_bytes;

    let tb = t.as_bytes();
    let n = tb.len();
    let ilen = input.len();
    let mut j: usize = 0;
    while j < n
        invariant
            0 <= j <= n,
            n == t@.len(),
            ilen == input@.len(),
            pos + j <= ilen,
            tb@ == Seq::new(t@.len(), |i: int| t@.index(i) as u8),
            vstd::string::is_ascii(t),
            forall|k: int| 0 <= k < j ==> byte_matches_char_ci(input@[pos + k], t@[k]),
        decreases n - j,
    {
        if pos + j == ilen {
            return TagMatch::Prefix;
        }
        let bi = input[pos + j];
        let bt = tb[j];
        proof {
            assert(t@[j as int] as u32 <= 127);
            assert(bt as int == t@[j as int] as int);
        }
        if to_lower(bi) != to_lower(bt) {
            return TagMatch::Mismatch;
        }
        proof {
            assert(byte_matches_char_ci(input@[pos + j], t@[j as int]));
        }
        j += 1;
    }
    TagMatch::Full
}

/// Length in characters of an ASCII tag.
pub fn tag_len(t: &str) -> (n: usize)
    requires
        vstd::string::is_ascii(t),
    ensures
        n == t@.len(),
{
    broadcast use vstd::string::is_ascii_spec_bytes;

    let tb = t.as_bytes();
    proof {
        assert(tb@ =~= Seq::new(t@.len(), |i: int| t@.index(i) as u8));
    }
    tb.len()
}

/// Anchored case-insensitive match, yielding the position just past the tag.
pub fn try_tag(input: &[u8], pos: usize, t: &str) -> (r: Option<usize>)
    requires
        pos <= input@.len(),
        vstd::string::is_ascii(t),
    ensures
        match r {
            Some(j) => tag_matches(input@, pos as int, t@) && j == pos + t@.len() && j
                <= input@.len(),
            None => !tag_matches(input@, pos as int, t@),
        },
{
    match match_tag_full(input, pos, t) {
        TagMatch::Full => {
            let ilen = input.len();
            let n = tag_len(t);
            assert(pos + n <= ilen);
            Some(pos + n)
        },
        _ => None,
    }
}

// ---------------------------------------------------------------------------
// Decimal digit strings
// ---------------------------------------------------------------------------
pub open spec fn all_digits(t: Seq<u8>) -> bool {
    forall|j: int| 0 <= j < t.len() ==> is_digit(#[trigger] t[j])
}

/// The numeric value of a decimal digit string (most significant digit first).
pub open spec fn digits_value(t: Seq<u8>) -> int
    decreases t.len(),
{
    if t.len() == 0 {
        0
    } else {
        digits_value(t.drop_last()) * 10 + (t.last() - 48)
    }
}

pub proof fn lemma_digits_value_nonneg(t: Seq<u8>)
    requires
        all_digits(t),
    ensures
        digits_value(t) >= 0,
    decreases t.len(),
{
    if t.len() > 0 {
        assert(all_digits(t.drop_last()));
        lemma_digits_value_nonneg(t.drop_last());
    }
}

/// Extending a digit string on the right never decreases its value.
pub proof fn lemma_digits_value_prefix(t: Seq<u8>, n: int)
    requires
        all_digits(t),
        0 <= n <= t.len(),
    ensures
        digits_value(t.subrange(0, n)) <= digits_value(t),
    decreases t.len() - n,
{
    if n == t.len() {
        assert(t.subrange(0, n) =~= t);
    } else {
        lemma_digits_value_prefix(t, n + 1);
        let p = t.subrange(0, n + 1);
        assert(p.drop_last() =~= t.subrange(0, n));
        assert(all_digits(t.subrange(0, n)));
        lemma_digits_value_nonneg(t.subrange(0, n));
    }
}

} // verus!
