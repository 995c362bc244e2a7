//! Text on the wire: UTF-16 encoding and lossy decoding, NUL termination,
//! decimal formatting, and the std text functions they rest on.
use vstd::prelude::*;

verus! {

/// Whether `u` is a leading (high) surrogate code unit.
pub open spec fn is_high_surrogate(u: u16) -> bool {
    0xD800 <= u < 0xDC00
}

/// Whether `u` is a trailing (low) surrogate code unit.
pub open spec fn is_low_surrogate(u: u16) -> bool {
    0xDC00 <= u < 0xE000
}

/// The UTF-16 code units of one character.
pub open spec fn utf16_of_char(c: char) -> Seq<u16> {
    let n = c as int;
    if n < 0x10000 {
        seq![n as u16]
    } else {
        let m = n - 0x10000;
        seq![(0xD800 + m / 0x400) as u16, (0xDC00 + m % 0x400) as u16]
    }
}

/// The UTF-16 encoding of a character sequence.
pub open spec fn utf16_encode(s: Seq<char>) -> Seq<u16>
    decreases s.len(),
{
    if s.len() == 0 {
        seq![]
    } else {
        utf16_of_char(s[0]) + utf16_encode(s.drop_first())
    }
}

/// The character that a surrogate pair stands for.
pub open spec fn surrogate_pair_char(hi: u16, lo: u16) -> char {
    ((hi - 0xD800) * 0x400 + (lo - 0xDC00) + 0x10000) as char
}

/// Lossy UTF-16 decoding: each well-formed surrogate pair and each
/// non-surrogate unit gives its character, and each unpaired surrogate gives
/// U+FFFD.
pub open spec fn utf16_lossy(u: Seq<u16>) -> Seq<char>
    decreases u.len(),
{
    if u.len() == 0 {
        seq![]
    } else if is_high_surrogate(u[0]) && u.len() >= 2 && is_low_surrogate(u[1]) {
        seq![surrogate_pair_char(u[0], u[1])] + utf16_lossy(u.skip(2))
    } else if is_high_surrogate(u[0]) || is_low_surrogate(u[0]) {
        seq!['\u{FFFD}'] + utf16_lossy(u.skip(1))
    } else {
        seq![u[0] as char] + utf16_lossy(u.skip(1))
    }
}

/// The units of `u` before its first NUL (all of `u` when it has none).
pub open spec fn until_nul(u: Seq<u16>) -> Seq<u16>
    decreases u.len(),
{
    if u.len() == 0 || u[0] == 0 {
        seq![]
    } else {
        seq![u[0]] + until_nul(u.drop_first())
    }
}

/// Whether `s` holds no NUL character.
pub open spec fn has_no_nul(s: Seq<char>) -> bool {
    forall|i: int| 0 <= i < s.len() ==> s[i] != '\0'
}

/// When `u.take(i)` holds no NUL and `u[i]` is NUL (or `i` is the end), the
/// units before the first NUL are exactly `u.take(i)`.
pub proof fn lemma_until_nul_at(u: Seq<u16>, i: int)
    requires
        0 <= i <= u.len(),
        forall|j: int| 0 <= j < i ==> u[j] != 0,
        i == u.len() || u[i] == 0,
    ensures
        until_nul(u) == u.take(i),
    decreases i,
{
    if i == 0 {
        assert(u.take(0) =~= Seq::<u16>::empty());
    } else {
        let t = u.drop_first();
        assert forall|j: int| 0 <= j < i - 1 implies t[j] != 0 by {
            assert(t[j] == u[j + 1]);
        }
        lemma_until_nul_at(t, i - 1);
        assert(u.take(i) =~= seq![u[0]] + t.take(i - 1));
    }
}

/// A sequence without NUL units is its own NUL-terminated prefix.
pub proof fn lemma_until_nul_none(u: Seq<u16>)
    requires
        forall|j: int| 0 <= j < u.len() ==> u[j] != 0,
    ensures
        until_nul(u) == u,
{
    lemma_until_nul_at(u, u.len() as int);
    assert(u.take(u.len() as int) =~= u);
}

/// A character's code point is a Unicode scalar value.
pub proof fn lemma_char_range(c: char)
    ensures
        0 <= c as int <= 0x10FFFF,
        !(0xD800 <= c as int <= 0xDFFF),
{
    vstd::utf8::char_is_scalar(c);
    assert((c as u32) as int == c as int);
}

/// The UTF-16 encoding of a string without NUL characters holds no NUL unit.
pub proof fn lemma_utf16_no_nul(s: Seq<char>)
    requires
        has_no_nul(s),
    ensures
        forall|j: int| 0 <= j < utf16_encode(s).len() ==> utf16_encode(s)[j] != 0,
    decreases s.len(),
{
    if s.len() > 0 {
        let rest = s.drop_first();
        assert forall|i: int| 0 <= i < rest.len() implies rest[i] != '\0' by {
            assert(rest[i] == s[i + 1]);
        }
        lemma_utf16_no_nul(rest);
        let head = utf16_of_char(s[0]);
        assert(s[0] != '\0');
        lemma_char_range(s[0]);
        assert forall|j: int| 0 <= j < head.len() implies head[j] != 0 by {
            if (s[0] as int) < 0x10000 {
                assert(s[0] as int != 0);
            }
        }
        let e = utf16_encode(s);
        assert(e == head + utf16_encode(rest));
        assert forall|j: int| 0 <= j < e.len() implies e[j] != 0 by {
            if j >= head.len() {
                assert(e[j] == utf16_encode(rest)[j - head.len()]);
            }
        }
    }
}

/// Lossy decoding undoes UTF-16 encoding.
pub proof fn lemma_utf16_roundtrip(s: Seq<char>)
    ensures
        utf16_lossy(utf16_encode(s)) == s,
    decreases s.len(),
{
    if s.len() == 0 {
        assert(utf16_encode(s) =~= Seq::<u16>::empty());
        assert(s =~= Seq::<char>::empty());
    } else {
        let c = s[0];
        let rest = s.drop_first();
        lemma_utf16_roundtrip(rest);
        let head = utf16_of_char(c);
        let e = utf16_encode(s);
        assert(e == head + utf16_encode(rest));
        let n = c as int;
        lemma_char_range(c);
        if n < 0x10000 {
            assert(e[0] == n as u16);
            assert(!is_high_surrogate(e[0]) && !is_low_surrogate(e[0]));
            assert(e.skip(1) =~= utf16_encode(rest));
            assert((n as u16) as char == c) by {
                vstd::utf8::char_u32_cast(c, c as u32);
            }
            assert(s =~= seq![c] + rest);
        } else {
            let m = n - 0x10000;
            assert(m < 0x100000);
            let hi = (0xD800 + m / 0x400) as u16;
            let lo = (0xDC00 + m % 0x400) as u16;
            assert(0 <= m / 0x400 < 0x400);
            assert(0 <= m % 0x400 < 0x400);
            assert(e[0] == hi && e[1] == lo);
            assert(is_high_surrogate(hi) && is_low_surrogate(lo));
            assert(e.skip(2) =~= utf16_encode(rest));
            assert((hi - 0xD800) * 0x400 + (lo - 0xDC00) + 0x10000 == n) by {
                vstd::arithmetic::div_mod::lemma_fundamental_div_mod(m, 0x400);
            }
            assert(surrogate_pair_char(hi, lo) == c) by {
                vstd::utf8::char_u32_cast(c, c as u32);
            }
            assert(s =~= seq![c] + rest);
        }
    }
}

/// The decimal digit character for `d` in `0..10`.
pub open spec fn digit_char(d: int) -> char {
    (48 + d) as char
}

/// The decimal representation of a natural number, without leading zeros.
pub open spec fn decimal_nat(n: nat) -> Seq<char>
    decreases n,
{
    if n < 10 {
        seq![digit_char(n as int)]
    } else {
        decimal_nat(n / 10) + seq![digit_char((n % 10) as int)]
    }
}

/// The decimal representation of an integer, with a leading `-` when negative.
pub open spec fn decimal(n: int) -> Seq<char> {
    if n < 0 {
        seq!['-'] + decimal_nat((-n) as nat)
    } else {
        decimal_nat(n as nat)
    }
}

/// The lower-case form that `str::to_lowercase` gives of a character sequence.
pub uninterp spec fn lowercase(s: Seq<char>) -> Seq<char>;

/// The upper-case form that `str::to_uppercase` gives of a character sequence.
pub uninterp spec fn uppercase(s: Seq<char>) -> Seq<char>;

/// `str::encode_utf16`, collected: the UTF-16 code units of `s`, in order
/// (the encoding the Unicode standard defines and std documents).
#[verifier::external_body]
pub(crate) fn utf16_units(s: &str) -> (res: Vec<u16>)
    ensures
        res@ == utf16_encode(s@),
{
    s.encode_utf16().collect()
}

/// `String::from_utf16_lossy`: decodes `units`, putting U+FFFD in place of
/// each unpaired surrogate, as std documents.
#[verifier::external_body]
pub(crate) fn string_from_utf16_lossy(units: &[u16]) -> (res: String)
    ensures
        res@ == utf16_lossy(units@),
{
    String::from_utf16_lossy(units)
}

/// `str::to_lowercase`: the Unicode lower-case form of `s`, named by
/// `lowercase` (its tables are not restated here).
#[verifier::external_body]
pub(crate) fn to_lowercase(s: &str) -> (res: String)
    ensures
        res@ == lowercase(s@),
{
    s.to_lowercase()
}

/// `str::to_uppercase`: the Unicode upper-case form of `s`, named by
/// `uppercase` (its tables are not restated here).
#[verifier::external_body]
pub(crate) fn to_uppercase(s: &str) -> (res: String)
    ensures
        res@ == uppercase(s@),
{
    s.to_uppercase()
}

/// `format!("{}", n)` on an integer: its decimal representation.
#[verifier::external_body]
pub(crate) fn decimal_string(n: i128) -> (res: String)
    ensures
        res@ == decimal(n as int),
{
    format!("{}", n)
}

} // verus!
