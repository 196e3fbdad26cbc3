//! Small text utilities shared by the protocol formatters: hex and decimal
//! rendering of integers, Unicode lower-casing and substring search.
use vstd::prelude::*;
use vstd::string::*;

verus! {

/// The upper-case hexadecimal digit for a nibble value `n < 16`.
pub open spec fn hex_upper(n: int) -> char {
    if n < 10 {
        (48 + n) as char
    } else {
        (55 + n) as char
    }
}

/// Two upper-case hexadecimal digits of a byte, most significant first.
pub open spec fn hex_byte_upper(b: u8) -> Seq<char> {
    seq![hex_upper(b as int / 16), hex_upper(b as int % 16)]
}

/// The lower-case hexadecimal digit for a nibble value `n < 16`.
pub open spec fn hex_lower(n: int) -> char {
    if n < 10 {
        (48 + n) as char
    } else {
        (87 + n) as char
    }
}

/// The decimal digit character for `d < 10`.
pub open spec fn dec_digit(d: int) -> char {
    (48 + d) as char
}

/// Decimal rendering of a natural number, without leading zeros.
pub open spec fn dec_nat(n: nat) -> Seq<char>
    decreases n,
{
    if n < 10 {
        seq![dec_digit(n as int)]
    } else {
        dec_nat(n / 10).push(dec_digit((n % 10) as int))
    }
}

/// Decimal rendering of an integer, with a leading `-` when negative.
pub open spec fn dec_int(i: int) -> Seq<char> {
    if i < 0 {
        seq!['-'] + dec_nat((-i) as nat)
    } else {
        dec_nat(i as nat)
    }
}

/// `needle` occurs as a contiguous run of characters inside `hay`.
pub open spec fn has_substring(hay: Seq<char>, needle: Seq<char>) -> bool {
    exists|i: int|
        0 <= i && i + needle.len() <= hay.len() && #[trigger] hay.subrange(i, i + needle.len())
            == needle
}

/// The Unicode lower-case form of a text, as `str::to_lowercase` computes it.
pub uninterp spec fn lowercase(s: Seq<char>) -> Seq<char>;

/// Appends one character to a string.
///
/// Trusted: calls `String::push`, which std documents as appending the
/// given char to the end of the string.
#[verifier::external_body]
pub(crate) fn push_char(s: &mut String, c: char)
    ensures
        final(s)@ == old(s)@.push(c),
{
    s.push(c)
}

/// Lower-cases a text.
///
/// Trusted: calls `str::to_lowercase`. Its result is named `lowercase`; the
/// Unicode case tables that define it are not written out here.
#[verifier::external_body]
pub(crate) fn to_lowercase(s: &str) -> (r: String)
    ensures
        r@ == lowercase(s@),
{
    s.to_lowercase()
}

/// The hexadecimal digit character for a nibble, upper case.
pub fn hex_upper_char(n: u8) -> (c: char)
    requires
        n < 16,
    ensures
        c == hex_upper(n as int),
{
    if n < 10 {
        (48 + n) as char
    } else {
        (55 + n) as char
    }
}

/// The hexadecimal digit character for a nibble, lower case.
pub fn hex_lower_char(n: u8) -> (c: char)
    requires
        n < 16,
    ensures
        c == hex_lower(n as int),
{
    if n < 10 {
        (48 + n) as char
    } else {
        (87 + n) as char
    }
}

/// Appends the two upper-case hex digits of `b`.
pub fn push_hex_byte_upper(s: &mut String, b: u8)
    ensures
        final(s)@ == old(s)@ + hex_byte_upper(b),
{
    push_char(s, hex_upper_char(b / 16));
    push_char(s, hex_upper_char(b % 16));
    assert(s@ =~= old(s)@ + hex_byte_upper(b));
}

/// Appends the decimal rendering of `n`.
pub fn push_decimal_u64(s: &mut String, n: u64)
    ensures
        final(s)@ == old(s)@ + dec_nat(n as nat),
    decreases n,
{
    if n >= 10 {
        push_decimal_u64(s, n / 10);
    }
    let d: u8 = (n % 10) as u8;
    push_char(s, (48 + d) as char);
    if n >= 10 {
        assert(s@ =~= old(s)@ + dec_nat(n as nat));
    } else {
        assert(s@ =~= old(s)@ + dec_nat(n as nat));
    }
}

/// Appends the decimal rendering of `n`, with `-` for negative values.
pub fn push_decimal_i64(s: &mut String, n: i64)
    ensures
        final(s)@ == old(s)@ + dec_int(n as int),
{
    if n < 0 {
        push_char(s, '-');
        let m: i128 = -(n as i128);
        push_decimal_u64(s, m as u64);
        assert(s@ =~= old(s)@ + dec_int(n as int));
    } else {
        push_decimal_u64(s, n as u64);
    }
}

/// The characters of a text, in order.
pub fn chars_of(s: &str) -> (v: Vec<char>)
    ensures
        v@ == s@,
{
    let n = s.unicode_len();
    let mut v: Vec<char> = Vec::new();
    let mut i: usize = 0;
    while i < n
        invariant
            n == s@.len(),
            i <= n,
            v@ == s@.subrange(0, i as int),
        decreases n - i,
    {
        v.push(s.get_char(i));
        i = i + 1;
        assert(v@ =~= s@.subrange(0, i as int));
    }
    assert(v@ =~= s@);
    v
}

/// Whether `needle` occurs as a contiguous run inside `hay`.
pub fn contains_chars(hay: &Vec<char>, needle: &Vec<char>) -> (r: bool)
    ensures
        r == has_substring(hay@, needle@),
{
    let hl = hay.len();
    let nl = needle.len();
    if nl > hl {
        assert(!has_substring(hay@, needle@));
        return false;
    }
    let mut i: usize = 0;
    while i <= hl - nl
        invariant
            hl == hay@.len(),
            nl == needle@.len(),
            nl <= hl,
            i <= hl - nl + 1,
            forall|k: int| 0 <= k < i ==> #[trigger] hay@.subrange(k, k + nl) != needle@,
        decreases hl - i,
    {
        let mut j: usize = 0;
        let mut ok = true;
        while j < nl
            invariant
                hl == hay@.len(),
                nl == needle@.len(),
                i + nl <= hl,
                j <= nl,
                ok == (forall|m: int| 0 <= m < j ==> hay@[i + m] == needle@[m]),
            decreases nl - j,
        {
            if hay[i + j] != needle[j] {
                ok = false;
            }
            j = j + 1;
        }
        if ok {
            assert(hay@.subrange(i as int, i + nl) =~= needle@);
            return true;
        }
        assert(hay@.subrange(i as int, i + nl) != needle@) by {
            let w = choose|m: int| 0 <= m < nl && hay@[i + m] != needle@[m];
            assert(hay@.subrange(i as int, i + nl)[w] != needle@[w]);
        }
        i = i + 1;
    }
    assert forall|k: int|
        0 <= k && k + needle@.len() <= hay@.len() implies #[trigger] hay@.subrange(
        k,
        k + needle@.len(),
    ) != needle@ by {
        assert(k < i);
    }
    false
}

/// Whether the text `needle` occurs inside the text `hay`.
pub fn str_contains(hay: &str, needle: &str) -> (r: bool)
    ensures
        r == has_substring(hay@, needle@),
{
    let h = chars_of(hay);
    let n = chars_of(needle);
    contains_chars(&h, &n)
}

} // verus!
