//! The two text encodings that relay events use: lowercase hex in tags and
//! standard base64 in the content.

use base64::engine::general_purpose::STANDARD;
use base64::Engine;
use vstd::prelude::*;

verus! {

/// The error of the `hex` crate's decoder, carried as an opaque value.
#[verifier::external_type_specification]
#[verifier::external_body]
pub struct ExFromHexError(hex::FromHexError);

/// The error of the `base64` crate's decoder, carried as an opaque value.
#[verifier::external_type_specification]
#[verifier::external_body]
pub struct ExDecodeError(base64::DecodeError);

// ---------------------------------------------------------------------------
// Hex
// ---------------------------------------------------------------------------

/// The lowercase hex digit of a value below sixteen.
pub open spec fn hex_digit(v: int) -> char {
    if v < 10 {
        ('0' as int + v) as char
    } else {
        ('a' as int + v - 10) as char
    }
}

/// The value of a hex digit in either case, if `c` is one.
pub open spec fn hex_value(c: char) -> Option<int> {
    if '0' <= c <= '9' {
        Some(c as int - '0' as int)
    } else if 'a' <= c <= 'f' {
        Some(c as int - 'a' as int + 10)
    } else if 'A' <= c <= 'F' {
        Some(c as int - 'A' as int + 10)
    } else {
        None
    }
}

/// The lowercase hex text of `bytes`: two digits per byte, high digit first.
pub open spec fn hex_text(bytes: Seq<u8>) -> Seq<char> {
    Seq::new(
        2 * bytes.len(),
        |i: int| hex_digit(if i % 2 == 0 { bytes[i / 2] as int / 16 } else { bytes[i / 2] as int % 16 }),
    )
}

/// Whether `text` is an even number of hex digits.
pub open spec fn is_hex(text: Seq<char>) -> bool {
    &&& text.len() % 2 == 0
    &&& forall|i: int| 0 <= i < text.len() ==> hex_value(#[trigger] text[i]) is Some
}

/// The bytes that `text` spells in hex, if it is an even number of hex digits.
pub open spec fn hex_bytes(text: Seq<char>) -> Option<Seq<u8>> {
    if is_hex(text) {
        Some(Seq::new(
            text.len() / 2,
            |i: int| (16 * hex_value(text[2 * i])->0 + hex_value(text[2 * i + 1])->0) as u8,
        ))
    } else {
        None
    }
}

/// Hex text spells the bytes it was made from.
pub proof fn law_hex_round_trip(bytes: Seq<u8>)
    ensures
        hex_bytes(hex_text(bytes)) == Some(bytes),
{
    let text = hex_text(bytes);
    assert forall|i: int| 0 <= i < text.len() implies hex_value(#[trigger] text[i]) is Some by {
        assert(0 <= bytes[i / 2] as int / 16 < 16);
    }
    let back = hex_bytes(text)->0;
    assert forall|i: int| 0 <= i < bytes.len() implies back[i] == bytes[i] by {
        assert((2 * i) / 2 == i && (2 * i + 1) / 2 == i);
        assert((2 * i) % 2 == 0 && (2 * i + 1) % 2 == 1);
        let high = bytes[i] as int / 16;
        let low = bytes[i] as int % 16;
        assert(text[2 * i] == hex_digit(high));
        assert(text[2 * i + 1] == hex_digit(low));
        assert(hex_value(hex_digit(high)) == Some(high));
        assert(hex_value(hex_digit(low)) == Some(low));
        assert(16 * high + low == bytes[i]);
    }
    assert(back =~= bytes);
}

/// Two lowercase digits stand for a byte, the high one first.
pub proof fn law_hex_of_byte(byte: u8)
    ensures
        hex_text(seq![byte]) == seq![
            "0123456789abcdef"@[byte as int / 16],
            "0123456789abcdef"@[byte as int % 16],
        ],
{
    reveal_strlit("0123456789abcdef");
    assert(hex_text(seq![byte]) =~= seq![
        "0123456789abcdef"@[byte as int / 16],
        "0123456789abcdef"@[byte as int % 16],
    ]);
}

/// Bytes are written one after the other, whatever stands around them.
pub proof fn law_hex_text_add(a: Seq<u8>, b: Seq<u8>)
    ensures
        hex_text(a + b) == hex_text(a) + hex_text(b),
{
    let both = hex_text(a) + hex_text(b);
    assert forall|i: int| 0 <= i < both.len() implies hex_text(a + b)[i] == both[i] by {
        if i >= 2 * a.len() {
            let k = i - 2 * a.len();
            assert(i / 2 == a.len() + k / 2 && i % 2 == k % 2);
        } else {
            assert(i / 2 < a.len());
        }
    }
    assert(hex_text(a + b) =~= both);
}

/// `hex::encode`: lowercase, two digits per byte. The text has to fit in a
/// `String`, whose capacity is at most `isize::MAX`.
#[verifier::external_body]
pub(crate) fn hex_encode(bytes: &[u8]) -> (text: String)
    requires
        2 * bytes@.len() <= isize::MAX,
    ensures
        text@ == hex_text(bytes@),
{
    hex::encode(bytes)
}

/// `hex::decode`: accepts an even number of hex digits of either case, and
/// nothing else.
#[verifier::external_body]
pub(crate) fn hex_decode(text: &str) -> (r: Result<Vec<u8>, hex::FromHexError>)
    ensures
        match r {
            Ok(bytes) => hex_bytes(text@) == Some(bytes@),
            Err(_) => hex_bytes(text@) is None,
        },
{
    hex::decode(text)
}

// ---------------------------------------------------------------------------
// Base64
// ---------------------------------------------------------------------------

/// The byte at `i`, or zero past the end.
pub open spec fn octet(bytes: Seq<u8>, i: int) -> int {
    if 0 <= i < bytes.len() {
        bytes[i] as int
    } else {
        0
    }
}

/// Three bytes from `3 * q` on, as one 24-bit number.
pub open spec fn triple(bytes: Seq<u8>, q: int) -> int {
    octet(bytes, 3 * q) * 0x10000 + octet(bytes, 3 * q + 1) * 0x100 + octet(bytes, 3 * q + 2)
}

/// The six bits of `bytes` that base64 character `i` stands for.
pub open spec fn sextet(bytes: Seq<u8>, i: int) -> int {
    let word = triple(bytes, i / 4);
    if i % 4 == 0 {
        word / 0x40000
    } else if i % 4 == 1 {
        word / 0x1000 % 0x40
    } else if i % 4 == 2 {
        word / 0x40 % 0x40
    } else {
        word % 0x40
    }
}

/// The character of the standard base64 alphabet for a six-bit value.
pub open spec fn base64_symbol(v: int) -> char {
    if v < 26 {
        ('A' as int + v) as char
    } else if v < 52 {
        ('a' as int + v - 26) as char
    } else if v < 62 {
        ('0' as int + v - 52) as char
    } else if v == 62 {
        '+'
    } else {
        '/'
    }
}

/// The number of characters that base64 takes for `n` bytes, padding counted.
pub open spec fn base64_len(n: nat) -> nat {
    (4 * ((n + 2) / 3)) as nat
}

/// The standard base64 text of `bytes`, padded with `=` to whole groups of four.
pub open spec fn base64_text(bytes: Seq<u8>) -> Seq<char> {
    Seq::new(
        base64_len(bytes.len()),
        |i: int|
            if 6 * i < 8 * bytes.len() {
                base64_symbol(sextet(bytes, i))
            } else {
                '='
            },
    )
}

proof fn lemma_sextet_range(bytes: Seq<u8>, i: int)
    requires
        0 <= i,
    ensures
        0 <= sextet(bytes, i) < 64,
{
}

proof fn lemma_symbol_injective(u: int, v: int)
    requires
        0 <= u < 64,
        0 <= v < 64,
        base64_symbol(u) == base64_symbol(v),
    ensures
        u == v,
        base64_symbol(u) != '=',
{
}

/// The padding tells how many bytes the last group stands for.
proof fn lemma_base64_len_at_least(a: Seq<u8>, b: Seq<u8>)
    requires
        base64_text(a) == base64_text(b),
    ensures
        a.len() >= b.len(),
{
    assert(base64_text(a).len() == base64_len(a.len()));
    assert(base64_text(b).len() == base64_len(b.len()));
    if a.len() < b.len() {
        let i = (4 * a.len() + 2) as int / 3;
        assert(4 * a.len() <= 3 * i <= 4 * a.len() + 2);
        assert(0 <= i < base64_len(b.len()));
        assert(base64_text(a)[i] == '=');
        assert(base64_text(b)[i] == base64_symbol(sextet(b, i)));
        lemma_sextet_range(b, i);
        lemma_symbol_injective(sextet(b, i), sextet(b, i));
    }
}

/// Equal base64 texts have equal six-bit groups, those that padding stands for
/// included, since the bits there are zero.
proof fn lemma_base64_same_sextet(a: Seq<u8>, b: Seq<u8>, i: int)
    requires
        base64_text(a) == base64_text(b),
        a.len() == b.len(),
        0 <= i < base64_len(a.len()),
    ensures
        sextet(a, i) == sextet(b, i),
{
    if 6 * i < 8 * a.len() {
        assert(base64_text(a)[i] == base64_symbol(sextet(a, i)));
        assert(base64_text(b)[i] == base64_symbol(sextet(b, i)));
        lemma_sextet_range(a, i);
        lemma_sextet_range(b, i);
        lemma_symbol_injective(sextet(a, i), sextet(b, i));
    } else {
        let q = i / 4;
        assert(3 * q + 2 >= a.len());
        assert(i % 4 >= 2);
        assert(i % 4 == 2 ==> 3 * q + 1 >= a.len());
    }
}

/// A 24-bit number is made of its four six-bit groups.
proof fn lemma_word_from_sextets(word: int)
    requires
        0 <= word < 0x1000000,
    ensures
        word == word / 0x40000 * 0x40000 + word / 0x1000 % 0x40 * 0x1000 + word / 0x40 % 0x40 * 0x40
            + word % 0x40,
{
    assert(word / 0x1000 == word / 0x40 / 0x40);
    assert(word / 0x40000 == word / 0x1000 / 0x40);
}

/// A 24-bit number determines its three bytes.
proof fn lemma_octets_from_word(a0: int, a1: int, a2: int, b0: int, b1: int, b2: int)
    requires
        0 <= a0 < 256,
        0 <= a1 < 256,
        0 <= a2 < 256,
        0 <= b0 < 256,
        0 <= b1 < 256,
        0 <= b2 < 256,
        a0 * 0x10000 + a1 * 0x100 + a2 == b0 * 0x10000 + b1 * 0x100 + b2,
    ensures
        a0 == b0,
        a1 == b1,
        a2 == b2,
{
}

proof fn lemma_base64_same_octets(a: Seq<u8>, b: Seq<u8>, q: int)
    requires
        base64_text(a) == base64_text(b),
        a.len() == b.len(),
        0 <= q,
        3 * q < a.len(),
    ensures
        octet(a, 3 * q) == octet(b, 3 * q),
        octet(a, 3 * q + 1) == octet(b, 3 * q + 1),
        octet(a, 3 * q + 2) == octet(b, 3 * q + 2),
{
    lemma_base64_same_sextet(a, b, 4 * q);
    lemma_base64_same_sextet(a, b, 4 * q + 1);
    lemma_base64_same_sextet(a, b, 4 * q + 2);
    lemma_base64_same_sextet(a, b, 4 * q + 3);
    assert((4 * q + 1) / 4 == q && (4 * q + 2) / 4 == q && (4 * q + 3) / 4 == q);
    lemma_word_from_sextets(triple(a, q));
    lemma_word_from_sextets(triple(b, q));
    assert(triple(a, q) == triple(b, q));
    lemma_octets_from_word(
        octet(a, 3 * q),
        octet(a, 3 * q + 1),
        octet(a, 3 * q + 2),
        octet(b, 3 * q),
        octet(b, 3 * q + 1),
        octet(b, 3 * q + 2),
    );
}

/// Different bytes have different base64 texts.
pub proof fn law_base64_injective(a: Seq<u8>, b: Seq<u8>)
    requires
        base64_text(a) == base64_text(b),
    ensures
        a == b,
{
    lemma_base64_len_at_least(a, b);
    lemma_base64_len_at_least(b, a);
    assert forall|j: int| 0 <= j < a.len() implies a[j] == b[j] by {
        let q = j / 3;
        lemma_base64_same_octets(a, b, q);
        assert(j == 3 * q || j == 3 * q + 1 || j == 3 * q + 2);
    }
    assert(a =~= b);
}

/// The bytes that `text` encodes in padded standard base64, if it is such a text.
pub open spec fn base64_bytes(text: Seq<char>) -> Option<Seq<u8>> {
    if exists|bytes: Seq<u8>| #[trigger] base64_text(bytes) == text {
        Some(choose|bytes: Seq<u8>| #[trigger] base64_text(bytes) == text)
    } else {
        None
    }
}

/// Decoding undoes encoding: a text stands for bytes exactly where it is the
/// encoding of those bytes, and for none where it is the encoding of no bytes.
pub proof fn law_base64_bytes(text: Seq<char>)
    ensures
        match base64_bytes(text) {
            Some(bytes) => base64_text(bytes) == text,
            None => forall|bytes: Seq<u8>| #[trigger] base64_text(bytes) != text,
        },
{
}

/// Whole groups of three bytes are written one after the other, whatever follows.
pub proof fn law_base64_text_add(a: Seq<u8>, b: Seq<u8>)
    requires
        a.len() % 3 == 0,
    ensures
        base64_text(a + b) == base64_text(a) + base64_text(b),
{
    let k = a.len() as int / 3;
    let whole = a + b;
    let both = base64_text(a) + base64_text(b);
    assert(base64_len(a.len()) == 4 * k);
    assert(base64_len(whole.len()) == 4 * k + base64_len(b.len()));
    assert forall|i: int| 0 <= i < both.len() implies base64_text(whole)[i] == both[i] by {
        let q = i / 4;
        if i < 4 * k {
            assert(3 * q + 2 < a.len());
            assert(triple(whole, q) == triple(a, q));
        } else {
            let j = i - 4 * k;
            assert(q == k + j / 4 && i % 4 == j % 4);
            let p = j / 4;
            assert(octet(whole, 3 * q) == octet(b, 3 * p));
            assert(octet(whole, 3 * q + 1) == octet(b, 3 * p + 1));
            assert(octet(whole, 3 * q + 2) == octet(b, 3 * p + 2));
            assert(triple(whole, q) == triple(b, p));
        }
    }
    assert(base64_text(whole) =~= both);
}

/// Base64 text encodes the bytes it was made from, and no others.
pub proof fn law_base64_round_trip(bytes: Seq<u8>)
    ensures
        base64_bytes(base64_text(bytes)) == Some(bytes),
{
    let back = choose|b: Seq<u8>| #[trigger] base64_text(b) == base64_text(bytes);
    law_base64_injective(back, bytes);
}

/// `STANDARD.encode` of `base64`: the padded standard encoding. The text has to
/// fit in a `String`, whose capacity is at most `isize::MAX`.
#[verifier::external_body]
pub(crate) fn base64_encode(bytes: &[u8]) -> (text: String)
    requires
        base64_len(bytes@.len()) <= isize::MAX,
    ensures
        text@ == base64_text(bytes@),
{
    STANDARD.encode(bytes)
}

/// `STANDARD.decode` of `base64`: accepts exactly the texts that encoding gives,
/// so padding and zero trailing bits are required, and gives back the bytes.
#[verifier::external_body]
pub(crate) fn base64_decode(text: &str) -> (r: Result<Vec<u8>, base64::DecodeError>)
    ensures
        match r {
            Ok(bytes) => base64_text(bytes@) == text@,
            Err(_) => forall|bytes: Seq<u8>| #[trigger] base64_text(bytes) != text@,
        },
{
    STANDARD.decode(text)
}

} // verus!
