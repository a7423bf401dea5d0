use vstd::prelude::*;
use vstd::utf8::{valid_utf8, decode_utf8};
use crate::bytes::ByteReader;
use crate::error::{LoadError, eof_message, err_view, unset_key};

verus! {

/// The upper-case hexadecimal digit for `d` (`0 <= d < 16`).
pub open spec fn hex_digit(d: int) -> char {
    if d < 10 {
        (48 + d) as char
    } else {
        (55 + d) as char
    }
}

/// `{:#04X}` of a byte: `0x` and two upper-case hexadecimal digits.
pub open spec fn hex_byte_text(v: u8) -> Seq<char> {
    seq!['0', 'x', hex_digit(v as int / 16), hex_digit(v as int % 16)]
}

/// The `i`-th hexadecimal digit of a 32-bit value, most significant first.
pub open spec fn hex_nibble(v: u32, i: int) -> char {
    hex_digit((v as int / vstd::arithmetic::power::pow(16, (7 - i) as nat)) % 16)
}

/// `{:#010X}` of a 32-bit value: `0x` and eight upper-case hexadecimal digits.
pub open spec fn hex_key_text(v: u32) -> Seq<char> {
    seq!['0', 'x'] + Seq::new(8, |i: int| hex_nibble(v, i))
}

/// The decimal digits of a natural number.
pub open spec fn decimal_nat_text(n: nat) -> Seq<char>
    decreases n,
{
    if n < 10 {
        seq![(48 + n) as char]
    } else {
        decimal_nat_text(n / 10).push((48 + n % 10) as char)
    }
}

/// `{}` of an integer: an optional minus sign and its decimal digits.
pub open spec fn decimal_text(n: int) -> Seq<char> {
    if n < 0 {
        seq!['-'] + decimal_nat_text((-n) as nat)
    } else {
        decimal_nat_text(n as nat)
    }
}

/// What `String::from_utf8(bytes).unwrap_err().to_string()` gives for invalid bytes.
pub uninterp spec fn utf8_error_text(bytes: Seq<u8>) -> Seq<char>;

/// The byte of the upper-case hexadecimal digit for `d`.
fn hex_digit_byte(d: u32) -> (r: u8)
    requires
        d < 16,
    ensures
        r as char == hex_digit(d as int),
{
    if d < 10 {
        (48 + d) as u8
    } else {
        (55 + d) as u8
    }
}

/// Formats a byte as `{:#04X}` does: `0x` and two upper-case hexadecimal digits.
pub(crate) fn format_hex_byte(v: u8) -> (r: String)
    ensures
        r@ == hex_byte_text(v),
{
    proof {
        reveal_strlit("0x");
    }
    let mut s = String::from_str("0x");
    push_byte_as_char(&mut s, hex_digit_byte(v as u32 / 16));
    push_byte_as_char(&mut s, hex_digit_byte(v as u32 % 16));
    assert(s@ =~= hex_byte_text(v));
    s
}

/// Formats a 32-bit value as `{:#010X}` does: `0x` and eight upper-case hexadecimal
/// digits, most significant first.
pub(crate) fn format_hex_key(v: u32) -> (r: String)
    ensures
        r@ == hex_key_text(v),
{
    proof {
        reveal_strlit("0x");
        vstd::arithmetic::power::lemma_pow_positive(16, 7);
    }
    let mut s = String::from_str("0x");
    let mut d: u32 = 0x1000_0000;
    let mut i: usize = 0;
    assert(vstd::arithmetic::power::pow(16, 7) == 0x1000_0000) by {
        reveal_with_fuel(vstd::arithmetic::power::pow, 8);
    }
    while i < 8
        invariant
            i <= 8,
            s@.len() == 2 + i,
            s@.subrange(0, 2) == seq!['0', 'x'],
            forall|j: int| 0 <= j < i ==> s@[2 + j] == #[trigger] hex_nibble(v, j),
            i < 8 ==> d as int == vstd::arithmetic::power::pow(16, (7 - i) as nat),
            d > 0,
        decreases 8 - i,
    {
        let ghost before = s@;
        push_byte_as_char(&mut s, hex_digit_byte((v / d) % 16));
        assert(s@.subrange(0, 2) =~= before.subrange(0, 2));
        if i < 7 {
            proof {
                let e = (7 - i - 1) as nat;
                vstd::arithmetic::power::lemma_pow_positive(16, e);
                assert(vstd::arithmetic::power::pow(16, e + 1) == 16 * vstd::arithmetic::power::pow(16, e)) by {
                    vstd::arithmetic::power::lemma_pow1(16);
                    vstd::arithmetic::power::lemma_pow_adds(16, e, 1);
                }
            }
            d = d / 16;
        }
        i = i + 1;
    }
    assert(s@ =~= hex_key_text(v));
    s
}

/// std's `String::push` of a byte taken as a character (its code point is the byte's
/// value): the string gains that character at its end.
#[verifier::external_body]
pub(crate) fn push_byte_as_char(s: &mut String, b: u8)
    ensures
        final(s)@ == old(s)@.push(b as char),
{
    s.push(b as char)
}

/// Appends the decimal digits of `m`.
fn push_decimal(s: &mut String, m: u128)
    ensures
        final(s)@ == old(s)@ + decimal_nat_text(m as nat),
    decreases m,
{
    if m < 10 {
        push_byte_as_char(s, (48 + m) as u8);
        assert(s@ =~= old(s)@ + decimal_nat_text(m as nat));
    } else {
        push_decimal(s, m / 10);
        push_byte_as_char(s, (48 + m % 10) as u8);
        assert(s@ =~= old(s)@ + decimal_nat_text(m as nat));
    }
}

/// Formats an integer as `{}` does: a minus sign where it is negative, then the decimal
/// digits of its magnitude.
pub(crate) fn format_decimal(v: i128) -> (r: String)
    ensures
        r@ == decimal_text(v as int),
{
    proof {
        reveal_strlit("-");
    }
    let mut s = if v < 0 { String::from_str("-") } else { String::new() };
    let m: u128 = if v < 0 { (-(v + 1)) as u128 + 1 } else { v as u128 };
    push_decimal(&mut s, m);
    assert(s@ =~= decimal_text(v as int));
    s
}

/// std's `String::from_utf8`: it succeeds exactly on valid UTF-8, with the decoded characters;
/// on failure it hands back the error's text, which is named, not stated.
#[verifier::external_body]
pub(crate) fn string_from_utf8(bytes: Vec<u8>) -> (r: Result<String, String>)
    ensures
        r is Ok <==> valid_utf8(bytes@),
        r matches Ok(s) ==> s@ == decode_utf8(bytes@),
        r matches Err(m) ==> m@ == utf8_error_text(bytes@),
{
    match String::from_utf8(bytes) {
        Ok(s) => Ok(s),
        Err(e) => Err(e.to_string()),
    }
}

/// The text of a byte string: its characters when it is valid UTF-8.
pub open spec fn utf8_result(bytes: Seq<u8>) -> Result<Seq<char>, Seq<char>> {
    if valid_utf8(bytes) {
        Ok(decode_utf8(bytes))
    } else {
        Err(utf8_error_text(bytes))
    }
}

/// Decodes bytes as UTF-8, failing with the decoder's message.
pub fn decode_string(bytes: Vec<u8>) -> (r: Result<String, LoadError>)
    ensures
        match utf8_result(bytes@) {
            Ok(t) => r is Ok && r->Ok_0@ == t,
            Err(m) => r is Err && r->Err_0@ == err_view(m, unset_key()),
        },
{
    match string_from_utf8(bytes) {
        Ok(s) => Ok(s),
        Err(m) => Err(LoadError::from_message(m)),
    }
}

/// Index of the first zero byte at or after `p`, or the length when there is none.
pub open spec fn first_zero(s: Seq<u8>, p: int) -> int
    decreases s.len() - p,
{
    if p >= s.len() {
        s.len() as int
    } else if s[p] == 0 {
        p
    } else {
        first_zero(s, p + 1)
    }
}

pub proof fn lemma_first_zero(s: Seq<u8>, p: int)
    requires
        0 <= p,
    ensures
        p <= first_zero(s, p) || p > s.len(),
        first_zero(s, p) <= s.len(),
        first_zero(s, p) < s.len() ==> s[first_zero(s, p)] == 0,
        forall|i: int| p <= i < first_zero(s, p) ==> s[i] != 0,
    decreases s.len() - p,
{
    if p < s.len() && s[p] != 0 {
        lemma_first_zero(s, p + 1);
    }
}

/// The outcome of reading a zero-terminated string at `p`: the string and the position
/// after its terminator.
pub open spec fn nul_string_at(s: Seq<u8>, p: int) -> Result<(Seq<char>, int), Seq<char>> {
    let z = first_zero(s, p);
    if p < 0 || z >= s.len() {
        Err(eof_message())
    } else {
        match utf8_result(s.subrange(p, z)) {
            Ok(t) => Ok((t, z + 1)),
            Err(m) => Err(m),
        }
    }
}

/// Reads bytes up to a zero byte and decodes them as UTF-8; the zero is consumed.
pub fn read_nul_term_string(r: &mut ByteReader) -> (res: Result<String, LoadError>)
    ensures
        final(r).data() == old(r).data(),
        match nul_string_at(old(r).data(), old(r).at()) {
            Ok((t, e)) => res is Ok && res->Ok_0@ == t && final(r).at() == e,
            Err(m) => res is Err && res->Err_0@ == err_view(m, unset_key()),
        },
{
    let ghost s = r.data();
    let ghost p = r.at();
    proof {
        lemma_first_zero(s, p);
    }
    if r.remaining() == 0 {
        return Err(LoadError::eof());
    }
    let mut v: Vec<u8> = Vec::new();
    loop
        invariant
            r.data() == s,
            p <= r.at() <= first_zero(s, p),
            first_zero(s, p) <= s.len(),
            first_zero(s, p) < s.len() ==> s[first_zero(s, p)] == 0,
            forall|i: int| p <= i < first_zero(s, p) ==> s[i] != 0,
            v@ == s.subrange(p, r.at()),
            0 <= p < s.len(),
            s == old(r).data(),
            p == old(r).at(),
        decreases s.len() - r.at(),
    {
        let b = match r.read_u8() {
            Ok(b) => b,
            Err(e) => {
                return Err(e);
            },
        };
        if b == 0 {
            return decode_string(v);
        }
        v.push(b);
    }
}

} // verus!
