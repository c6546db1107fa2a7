//! IPv4 addresses and blocks in text: dotted decimal notation, and a block
//! as its first address, a slash and the length of the prefix.
//!
//! The text of a number has no leading zero, so every address has one text
//! and parsing is the inverse of writing.

use super::{IpAddress, IpCidr};
use crate::strings::push_char;
use vstd::arithmetic::div_mod::{
    lemma_div_denominator, lemma_fundamental_div_mod, lemma_fundamental_div_mod_converse,
};
use vstd::prelude::*;
use vstd::string::is_ascii_spec_bytes;
use vstd::utf8::is_ascii_chars;

verus! {

/// The character is a decimal digit.
pub open spec fn is_digit(c: char) -> bool {
    '0' <= c <= '9'
}

/// The digit that stands for `d`, for `d` from 0 to 9.
pub open spec fn digit(d: int) -> char {
    ((48 + d) as u8) as char
}

/// The number that a digit stands for.
pub open spec fn digit_value(c: char) -> int {
    c as int - 48
}

/// A number below 1000 in decimal notation, without leading zeros.
#[verifier::opaque]
pub open spec fn decimal(n: int) -> Seq<char> {
    if n < 10 {
        seq![digit(n)]
    } else if n < 100 {
        seq![digit(n / 10), digit(n % 10)]
    } else {
        seq![digit(n / 100), digit(n / 10 % 10), digit(n % 10)]
    }
}

/// Four numbers in decimal notation with dots between them.
pub open spec fn dotted(a: int, b: int, c: int, d: int) -> Seq<char> {
    decimal(a) + seq!['.'] + decimal(b) + seq!['.'] + decimal(c) + seq!['.'] + decimal(d)
}

/// An IPv4 address in dotted decimal notation.
pub open spec fn v4_text(addr: u32) -> Seq<char> {
    dotted(
        addr as int / 0x1000000,
        addr as int / 0x10000 % 256,
        addr as int / 0x100 % 256,
        addr as int % 256,
    )
}

/// An IPv4 address, a slash and the length of a prefix.
pub open spec fn v4_cidr_text(addr: u32, prefix_len: u8) -> Seq<char> {
    v4_text(addr) + seq!['/'] + decimal(prefix_len as int)
}

/// The number that is written at place `pos` of `s`, and the place behind
/// it: one to three digits that no digit follows, without a leading zero.
#[verifier::opaque]
pub closed spec fn number_at(s: Seq<char>, pos: int) -> Option<(int, int)> {
    if pos < 0 || pos >= s.len() || !is_digit(s[pos]) {
        None
    } else if pos + 1 >= s.len() || !is_digit(s[pos + 1]) {
        Some((digit_value(s[pos]), pos + 1))
    } else if s[pos] == '0' {
        None
    } else if pos + 2 >= s.len() || !is_digit(s[pos + 2]) {
        Some((10 * digit_value(s[pos]) + digit_value(s[pos + 1]), pos + 2))
    } else if pos + 3 >= s.len() || !is_digit(s[pos + 3]) {
        Some(
            (
                100 * digit_value(s[pos]) + 10 * digit_value(s[pos + 1]) + digit_value(s[pos + 2]),
                pos + 3,
            ),
        )
    } else {
        None
    }
}

/// The number of a byte that is written at place `pos`, a dot behind it if
/// `dot`, and the place behind both.
pub closed spec fn octet_at(s: Seq<char>, pos: int, dot: bool) -> Option<(int, int)> {
    match number_at(s, pos) {
        Some((v, end)) => if v > 255 {
            None
        } else if !dot {
            Some((v, end))
        } else if end < s.len() && s[end] == '.' {
            Some((v, end + 1))
        } else {
            None
        },
        None => None,
    }
}

/// The address that is written at the start of `s` in dotted decimal
/// notation, and the place behind it.
pub closed spec fn quad_at(s: Seq<char>) -> Option<(int, int)> {
    match octet_at(s, 0, true) {
        Some((a, at1)) => match octet_at(s, at1, true) {
            Some((b, at2)) => match octet_at(s, at2, true) {
                Some((c, at3)) => match octet_at(s, at3, false) {
                    Some((d, at4)) => Some((a * 0x1000000 + b * 0x10000 + c * 0x100 + d, at4)),
                    None => None,
                },
                None => None,
            },
            None => None,
        },
        None => None,
    }
}

/// What is read as a number is the decimal notation of that number, and no
/// digit follows it.
proof fn lemma_number_sound(s: Seq<char>, pos: int)
    ensures
        number_at(s, pos) matches Some((v, end)) ==> {
            &&& 0 <= pos < end <= s.len()
            &&& 0 <= v < 1000
            &&& s.subrange(pos, end) == decimal(v)
            &&& (end == s.len() || !is_digit(s[end]))
        },
{
    reveal(number_at);
    reveal(decimal);
    if let Some((v, end)) = number_at(s, pos) {
        assert(s.subrange(pos, end) =~= decimal(v));
    }
}

/// The decimal notation of a number below 1000, when no digit follows it,
/// is read as that number.
proof fn lemma_number_complete(s: Seq<char>, pos: int, v: int)
    requires
        0 <= v < 1000,
        0 <= pos,
        pos + decimal(v).len() <= s.len(),
        s.subrange(pos, pos + decimal(v).len()) == decimal(v),
        pos + decimal(v).len() == s.len() || !is_digit(s[pos + decimal(v).len()]),
    ensures
        number_at(s, pos) == Some((v, pos + decimal(v).len())),
{
    reveal(number_at);
    reveal(decimal);
    let t = s.subrange(pos, pos + decimal(v).len());
    assert(t[0] == s[pos]);
    if v >= 10 {
        assert(t[1] == s[pos + 1]);
    }
    if v >= 100 {
        assert(t[2] == s[pos + 2]);
    }
}

/// The decimal notation of a number below 1000 has one to three
/// characters, all of them digits.
proof fn lemma_decimal(v: int)
    requires
        0 <= v < 1000,
    ensures
        1 <= decimal(v).len() <= 3,
        forall|i: int| 0 <= i < decimal(v).len() ==> is_digit(#[trigger] decimal(v)[i]),
{
    reveal(decimal);
}

/// The text `s` agrees from `pos` on with the decimal notation of `v` and
/// then with `rest`.
spec fn starts_with_number(s: Seq<char>, pos: int, v: int, rest: Seq<char>) -> bool {
    &&& 0 <= pos
    &&& pos + decimal(v).len() + rest.len() <= s.len()
    &&& s.subrange(pos, pos + decimal(v).len() + rest.len()) == decimal(v) + rest
}

/// Where `s` holds at `pos` the decimal notation of a byte and then a text
/// that starts with a dot, the byte is read, and the rest of the text lies
/// behind the dot.
proof fn lemma_octet_then_dot(s: Seq<char>, pos: int, v: int, rest: Seq<char>)
    requires
        0 <= v <= 255,
        starts_with_number(s, pos, v, seq!['.'] + rest),
    ensures
        octet_at(s, pos, true) == Some((v, pos + decimal(v).len() + 1)),
        pos + decimal(v).len() + 1 + rest.len() <= s.len(),
        s.subrange(pos + decimal(v).len() + 1, pos + decimal(v).len() + 1 + rest.len()) == rest,
{
    let n = decimal(v).len() as int;
    let tail = seq!['.'] + rest;
    let whole = s.subrange(pos, pos + n + tail.len());
    lemma_decimal(v);
    assert(whole == decimal(v) + tail);
    assert(s.subrange(pos, pos + n) =~= decimal(v)) by {
        assert forall|i: int| 0 <= i < n implies s.subrange(pos, pos + n)[i] == decimal(v)[i] by {
            assert(whole[i] == decimal(v)[i]);
        }
    }
    assert(s[pos + n] == '.') by {
        assert(whole[n] == tail[0]);
    }
    lemma_number_complete(s, pos, v);
    assert(s.subrange(pos + n + 1, pos + n + 1 + rest.len()) =~= rest) by {
        assert forall|i: int| 0 <= i < rest.len() implies s.subrange(
            pos + n + 1,
            pos + n + 1 + rest.len(),
        )[i] == rest[i] by {
            assert(whole[n + 1 + i] == tail[1 + i]);
        }
    }
}

/// Where `s` holds at `pos` the decimal notation of a byte, and no digit
/// behind it, the byte is read.
proof fn lemma_octet_at_end(s: Seq<char>, pos: int, v: int)
    requires
        0 <= v <= 255,
        starts_with_number(s, pos, v, Seq::empty()),
        pos + decimal(v).len() == s.len() || !is_digit(s[pos + decimal(v).len()]),
    ensures
        octet_at(s, pos, false) == Some((v, pos + decimal(v).len())),
{
    assert(decimal(v) + Seq::<char>::empty() =~= decimal(v));
    lemma_number_complete(s, pos, v);
}

/// What is read as a byte is the decimal notation of that byte, with a dot
/// behind it where one was asked for, and no digit behind it otherwise.
proof fn lemma_octet_sound(s: Seq<char>, pos: int, dot: bool)
    ensures
        octet_at(s, pos, dot) matches Some((v, end)) ==> {
            &&& 0 <= v <= 255
            &&& 0 <= pos < end <= s.len()
            &&& dot ==> s.subrange(pos, end) == decimal(v) + seq!['.']
            &&& !dot ==> s.subrange(pos, end) == decimal(v) && (end == s.len() || !is_digit(
                s[end],
            ))
        },
{
    lemma_number_sound(s, pos);
    if let Some((v, end)) = octet_at(s, pos, dot) {
        if dot {
            assert(s.subrange(pos, end) =~= s.subrange(pos, end - 1) + seq!['.']);
        }
    }
}

/// Two pieces of a text that lie one behind the other make one piece.
proof fn lemma_join(s: Seq<char>, a: int, b: int, c: int)
    requires
        0 <= a <= b <= c <= s.len(),
    ensures
        s.subrange(a, c) == s.subrange(a, b) + s.subrange(b, c),
{
    assert(s.subrange(a, c) =~= s.subrange(a, b) + s.subrange(b, c));
}

/// The four bytes of an address, from the number that they make.
proof fn lemma_octets(a: int, b: int, c: int, d: int)
    requires
        0 <= a <= 255,
        0 <= b <= 255,
        0 <= c <= 255,
        0 <= d <= 255,
    ensures
        ({
            let addr = a * 0x1000000 + b * 0x10000 + c * 0x100 + d;
            &&& 0 <= addr <= u32::MAX
            &&& addr / 0x1000000 == a
            &&& addr / 0x10000 % 256 == b
            &&& addr / 0x100 % 256 == c
            &&& addr % 256 == d
        }),
{
    let addr = a * 0x1000000 + b * 0x10000 + c * 0x100 + d;
    lemma_fundamental_div_mod_converse(addr, 0x1000000, a, b * 0x10000 + c * 0x100 + d);
    lemma_fundamental_div_mod_converse(addr, 0x10000, a * 0x100 + b, c * 0x100 + d);
    lemma_fundamental_div_mod_converse(a * 0x100 + b, 256, a, b);
    lemma_fundamental_div_mod_converse(addr, 0x100, a * 0x10000 + b * 0x100 + c, d);
    lemma_fundamental_div_mod_converse(a * 0x10000 + b * 0x100 + c, 256, a * 0x100 + b, c);
}

/// The number that the four bytes of an address make is the address.
proof fn lemma_octets_of(addr: u32)
    ensures
        ({
            let a = addr as int / 0x1000000;
            let b = addr as int / 0x10000 % 256;
            let c = addr as int / 0x100 % 256;
            let d = addr as int % 256;
            &&& 0 <= a <= 255
            &&& 0 <= b <= 255
            &&& 0 <= c <= 255
            &&& 0 <= d <= 255
            &&& a * 0x1000000 + b * 0x10000 + c * 0x100 + d == addr
        }),
{
    let n = addr as int;
    lemma_fundamental_div_mod(n, 0x100);
    lemma_fundamental_div_mod(n / 0x100, 0x100);
    lemma_fundamental_div_mod(n / 0x100 / 0x100, 0x100);
    lemma_div_denominator(n, 0x100, 0x100);
    lemma_div_denominator(n, 0x10000, 0x100);
    lemma_div_denominator(n / 0x100, 0x100, 0x100);
}

/// What is read as an address is the dotted decimal notation of that
/// address, and no digit follows it.
proof fn lemma_quad_sound(s: Seq<char>)
    ensures
        quad_at(s) matches Some((addr, end)) ==> {
            &&& 0 <= addr <= u32::MAX
            &&& 0 < end <= s.len()
            &&& s.subrange(0, end) == v4_text(addr as u32)
            &&& (end == s.len() || !is_digit(s[end]))
        },
{
    if let Some((addr, end)) = quad_at(s) {
        let (a, at1) = octet_at(s, 0, true)->0;
        let (b, at2) = octet_at(s, at1, true)->0;
        let (c, at3) = octet_at(s, at2, true)->0;
        let (d, at4) = octet_at(s, at3, false)->0;
        lemma_octet_sound(s, 0, true);
        lemma_octet_sound(s, at1, true);
        lemma_octet_sound(s, at2, true);
        lemma_octet_sound(s, at3, false);
        lemma_octets(a, b, c, d);
        lemma_join(s, 0, at1, at2);
        lemma_join(s, 0, at2, at3);
        lemma_join(s, 0, at3, at4);
        assert(s.subrange(0, at4) =~= dotted(a, b, c, d));
    }
}

/// The dotted decimal notation of an address at the start of a text, when
/// no digit follows it, is read as that address.
proof fn lemma_quad_complete(s: Seq<char>, addr: u32)
    requires
        v4_text(addr).len() <= s.len(),
        s.subrange(0, v4_text(addr).len() as int) == v4_text(addr),
        v4_text(addr).len() == s.len() || !is_digit(s[v4_text(addr).len() as int]),
    ensures
        quad_at(s) == Some((addr as int, v4_text(addr).len() as int)),
{
    let a = addr as int / 0x1000000;
    let b = addr as int / 0x10000 % 256;
    let c = addr as int / 0x100 % 256;
    let d = addr as int % 256;
    lemma_octets_of(addr);
    let dot = seq!['.'];
    let r3 = decimal(d);
    let r2 = decimal(c) + dot + r3;
    let r1 = decimal(b) + dot + r2;
    assert(v4_text(addr) =~= decimal(a) + (dot + r1));
    assert(r1 =~= decimal(b) + (dot + r2));
    assert(r2 =~= decimal(c) + (dot + r3));
    lemma_octet_then_dot(s, 0, a, r1);
    let at1 = decimal(a).len() as int + 1;
    lemma_octet_then_dot(s, at1, b, r2);
    let at2 = at1 + decimal(b).len() + 1;
    lemma_octet_then_dot(s, at2, c, r3);
    let at3 = at2 + decimal(c).len() + 1;
    assert(r3 + Seq::<char>::empty() =~= r3);
    lemma_octet_at_end(s, at3, d);
    lemma_octets_of(addr);
}

/// The text as characters of one byte each, where it has no others.
fn ascii_bytes(text: &str) -> (r: Option<&[u8]>)
    ensures
        match r {
            Some(bytes) => {
                &&& is_ascii_chars(text@)
                &&& bytes@.len() == text@.len()
                &&& forall|i: int|
                    0 <= i < bytes@.len() ==> (#[trigger] bytes@[i]) as int == text@[i] as int
            },
            None => !is_ascii_chars(text@),
        },
{
    if text.is_ascii() {
        proof {
            is_ascii_spec_bytes(text);
        }
        Some(text.as_bytes())
    } else {
        None
    }
}

/// The bytes are the characters of `s`.
spec fn spells(bytes: Seq<u8>, s: Seq<char>) -> bool {
    &&& bytes.len() == s.len()
    &&& forall|i: int| 0 <= i < bytes.len() ==> (#[trigger] bytes[i]) as int == s[i] as int
}

/// Whether the byte at `pos` is a digit.
fn digit_at(bytes: &[u8], pos: usize, Ghost(s): Ghost<Seq<char>>) -> (r: bool)
    requires
        spells(bytes@, s),
    ensures
        r == (pos < s.len() && is_digit(s[pos as int])),
{
    pos < bytes.len() && 48 <= bytes[pos] && bytes[pos] <= 57
}

/// Reads the number at `pos`.
fn read_number(bytes: &[u8], pos: usize, Ghost(s): Ghost<Seq<char>>) -> (r: Option<(u32, usize)>)
    requires
        spells(bytes@, s),
    ensures
        match r {
            Some((v, end)) => number_at(s, pos as int) == Some((v as int, end as int)),
            None => number_at(s, pos as int) is None,
        },
{
    reveal(number_at);
    if !digit_at(bytes, pos, Ghost(s)) {
        return None;
    }
    let first: u32 = (bytes[pos] - 48) as u32;
    if !digit_at(bytes, pos + 1, Ghost(s)) {
        return Some((first, pos + 1));
    }
    if first == 0 {
        return None;
    }
    let second: u32 = (bytes[pos + 1] - 48) as u32;
    if !digit_at(bytes, pos + 2, Ghost(s)) {
        return Some((10 * first + second, pos + 2));
    }
    let third: u32 = (bytes[pos + 2] - 48) as u32;
    if !digit_at(bytes, pos + 3, Ghost(s)) {
        return Some((100 * first + 10 * second + third, pos + 3));
    }
    None
}

/// Reads the byte at `pos`, and the dot behind it if `dot`.
fn read_octet(bytes: &[u8], pos: usize, dot: bool, Ghost(s): Ghost<Seq<char>>) -> (r: Option<
    (u32, usize),
>)
    requires
        spells(bytes@, s),
    ensures
        match r {
            Some((v, end)) => octet_at(s, pos as int, dot) == Some((v as int, end as int)) && v
                <= 255,
            None => octet_at(s, pos as int, dot) is None,
        },
{
    proof {
        lemma_number_sound(s, pos as int);
    }
    match read_number(bytes, pos, Ghost(s)) {
        Some((v, end)) => {
            if v > 255 {
                None
            } else if !dot {
                Some((v, end))
            } else if end < bytes.len() && bytes[end] == 46 {
                Some((v, end + 1))
            } else {
                None
            }
        },
        None => None,
    }
}

/// Reads the address at the start of the text.
fn read_quad(bytes: &[u8], Ghost(s): Ghost<Seq<char>>) -> (r: Option<(u32, usize)>)
    requires
        spells(bytes@, s),
    ensures
        match r {
            Some((addr, end)) => quad_at(s) == Some((addr as int, end as int)),
            None => quad_at(s) is None,
        },
{
    let (a, at1) = match read_octet(bytes, 0, true, Ghost(s)) {
        Some(x) => x,
        None => { return None; },
    };
    let (b, at2) = match read_octet(bytes, at1, true, Ghost(s)) {
        Some(x) => x,
        None => { return None; },
    };
    let (c, at3) = match read_octet(bytes, at2, true, Ghost(s)) {
        Some(x) => x,
        None => { return None; },
    };
    let (d, at4) = match read_octet(bytes, at3, false, Ghost(s)) {
        Some(x) => x,
        None => { return None; },
    };
    Some((a * 0x1000000 + b * 0x10000 + c * 0x100 + d, at4))
}

/// The dotted decimal notation of an address is made of digits and dots.
proof fn lemma_v4_text_ascii(addr: u32)
    ensures
        is_ascii_chars(v4_text(addr)),
        v4_text(addr).len() >= 7,
{
    let a = addr as int / 0x1000000;
    let b = addr as int / 0x10000 % 256;
    let c = addr as int / 0x100 % 256;
    let d = addr as int % 256;
    lemma_decimal(a);
    lemma_decimal(b);
    lemma_decimal(c);
    lemma_decimal(d);
    let t = v4_text(addr);
    assert forall|i: int| 0 <= i < t.len() implies '\0' <= #[trigger] t[i] <= '\u{7f}' by {
        let la = decimal(a).len() as int;
        let lb = decimal(b).len() as int;
        let lc = decimal(c).len() as int;
        if i < la {
            assert(t[i] == decimal(a)[i]);
        } else if i == la {
        } else if i < la + 1 + lb {
            assert(t[i] == decimal(b)[i - la - 1]);
        } else if i == la + 1 + lb {
        } else if i < la + 1 + lb + 1 + lc {
            assert(t[i] == decimal(c)[i - la - lb - 2]);
        } else if i == la + 1 + lb + 1 + lc {
        } else {
            assert(t[i] == decimal(d)[i - la - lb - lc - 3]);
        }
    }
}

/// The address that a text names in dotted decimal notation: four numbers
/// from 0 to 255, none with a leading zero, with dots between them.
pub fn parse_v4(text: &str) -> (r: Option<u32>)
    ensures
        match r {
            Some(addr) => text@ == v4_text(addr),
            None => forall|addr: u32| text@ != #[trigger] v4_text(addr),
        },
{
    let bytes = match ascii_bytes(text) {
        Some(bytes) => bytes,
        None => {
            assert forall|addr: u32| text@ != #[trigger] v4_text(addr) by {
                lemma_v4_text_ascii(addr);
            }
            return None;
        },
    };
    let ghost s = text@;
    proof {
        lemma_quad_sound(s);
    }
    let read = read_quad(bytes, Ghost(s));
    let found = match read {
        Some((addr, end)) => if end == bytes.len() {
            Some(addr)
        } else {
            None
        },
        None => None,
    };
    proof {
        match found {
            Some(addr) => {
                assert(s.subrange(0, s.len() as int) =~= s);
            },
            None => {
                assert forall|addr: u32| text@ != #[trigger] v4_text(addr) by {
                    if s == v4_text(addr) {
                        assert(s.subrange(0, s.len() as int) =~= s);
                        lemma_quad_complete(s, addr);
                    }
                }
            },
        }
    }
    found
}

/// Appends the decimal notation of a number below 1000.
fn push_decimal(out: &mut String, n: u32)
    requires
        n < 1000,
    ensures
        final(out)@ == old(out)@ + decimal(n as int),
{
    if n >= 100 {
        push_char(out, ((48 + n / 100) as u8) as char);
    }
    if n >= 10 {
        push_char(out, ((48 + n / 10 % 10) as u8) as char);
    }
    push_char(out, ((48 + n % 10) as u8) as char);
    proof {
        reveal(decimal);
    }
    assert(out@ =~= old(out)@ + decimal(n as int));
}

/// The dotted decimal notation of an address.
pub fn format_v4(addr: u32) -> (r: String)
    ensures
        r@ == v4_text(addr),
{
    let mut out = String::new();
    push_decimal(&mut out, addr / 0x1000000);
    push_char(&mut out, '.');
    push_decimal(&mut out, addr / 0x10000 % 256);
    push_char(&mut out, '.');
    push_decimal(&mut out, addr / 0x100 % 256);
    push_char(&mut out, '.');
    push_decimal(&mut out, addr % 256);
    assert(out@ =~= v4_text(addr));
    out
}

/// The IPv4 block that a text names: an address in dotted decimal
/// notation, a slash, and a prefix length from 0 to 32 without a leading
/// zero. The block is the one of that length that holds the address.
pub fn parse_v4_cidr(text: &str) -> (r: Option<IpCidr>)
    ensures
        match r {
            Some(c) => exists|addr: u32, len: u8|
                #![trigger v4_cidr_text(addr, len)]
                {
                    &&& len <= 32
                    &&& text@ == v4_cidr_text(addr, len)
                    &&& c.wf()
                    &&& c.prefix_len() == len
                    &&& c.network() is V4
                    &&& c.span().contains(addr as u128)
                },
            None => forall|addr: u32, len: u8|
                len <= 32 ==> text@ != #[trigger] v4_cidr_text(addr, len),
        },
{
    let bytes = match ascii_bytes(text) {
        Some(bytes) => bytes,
        None => {
            assert forall|addr: u32, len: u8| len <= 32 implies text@ != #[trigger] v4_cidr_text(
                addr,
                len,
            ) by {
                lemma_cidr_text(text@, addr, len);
            }
            return None;
        },
    };
    let ghost s = text@;
    proof {
        lemma_quad_sound(s);
    }
    let found: Option<(u32, u32)> = match read_quad(bytes, Ghost(s)) {
        Some((addr, end)) => {
            if end < bytes.len() && bytes[end] == 47 {
                proof {
                    lemma_number_sound(s, end + 1);
                }
                match read_number(bytes, end + 1, Ghost(s)) {
                    Some((len, stop)) => if stop == bytes.len() && len <= 32 {
                        Some((addr, len))
                    } else {
                        None
                    },
                    None => None,
                }
            } else {
                None
            }
        },
        None => None,
    };
    match found {
        Some((addr, len)) => {
            let block = IpCidr::new(IpAddress::V4(addr), len as u8);
            proof {
                let (whole, end) = quad_at(s)->0;
                assert(s =~= s.subrange(0, end) + seq!['/'] + s.subrange(end + 1, s.len() as int));
                assert(s == v4_cidr_text(addr, len as u8));
                let c = block->0;
                c.lemma_wf();
                lemma_holds(c, addr);
            }
            block
        },
        None => {
            assert forall|addr: u32, len: u8| len <= 32 implies text@ != #[trigger] v4_cidr_text(
                addr,
                len,
            ) by {
                if s == v4_cidr_text(addr, len) {
                    lemma_cidr_text(s, addr, len);
                    let n = v4_text(addr).len() as int;
                    lemma_quad_complete(s, addr);
                    lemma_number_complete(s, n + 1, len as int);
                }
            }
            None
        },
    }
}

/// What the text of a block is made of: ASCII characters; the text of the
/// address, a slash, and the decimal notation of the length up to the end.
proof fn lemma_cidr_text(s: Seq<char>, addr: u32, len: u8)
    requires
        len <= 32,
    ensures
        is_ascii_chars(v4_cidr_text(addr, len)),
        s == v4_cidr_text(addr, len) ==> {
            let n = v4_text(addr).len() as int;
            &&& n < s.len()
            &&& s.subrange(0, n) == v4_text(addr)
            &&& s[n] == '/'
            &&& n + 1 + decimal(len as int).len() == s.len()
            &&& s.subrange(n + 1, n + 1 + decimal(len as int).len()) == decimal(len as int)
        },
{
    let t = v4_cidr_text(addr, len);
    let n = v4_text(addr).len() as int;
    lemma_v4_text_ascii(addr);
    lemma_decimal(len as int);
    assert forall|i: int| 0 <= i < t.len() implies '\0' <= #[trigger] t[i] <= '\u{7f}' by {
        if i < n {
            assert(t[i] == v4_text(addr)[i]);
        } else if i > n {
            assert(t[i] == decimal(len as int)[i - n - 1]);
        }
    }
    assert(t.subrange(0, n) =~= v4_text(addr));
    assert(t.subrange(n + 1, n + 1 + decimal(len as int).len()) =~= decimal(len as int));
}

/// The block of a given length that was made for an address holds it.
proof fn lemma_holds(c: IpCidr, addr: u32)
    requires
        c.wf(),
        c.network() is V4,
        c.network().number() == addr as int - (addr as int) % (vstd::arithmetic::power2::pow2(
            c.host_bits(),
        ) as int),
    ensures
        c.span().contains(addr as u128),
{
    c.lemma_wf();
    let d = vstd::arithmetic::power2::pow2(c.host_bits()) as int;
    vstd::arithmetic::power2::lemma_pow2_pos(c.host_bits());
    vstd::arithmetic::div_mod::lemma_mod_bound(addr as int, d);
}

} // verus!
