//! The standard base64 encoding, with padding.

use vstd::prelude::*;

verus! {

/// The character for a number below 64.
pub open spec fn sextet(n: int) -> char {
    if n < 26 {
        (65 + n) as char
    } else if n < 52 {
        (97 + (n - 26)) as char
    } else if n < 62 {
        (48 + (n - 52)) as char
    } else if n == 62 {
        '+'
    } else {
        '/'
    }
}

/// The number below 64 that a character stands for.
pub open spec fn sextet_value(c: char) -> int {
    if 'A' <= c <= 'Z' {
        c as int - 65
    } else if 'a' <= c <= 'z' {
        c as int - 97 + 26
    } else if '0' <= c <= '9' {
        c as int - 48 + 52
    } else if c == '+' {
        62
    } else {
        63
    }
}

/// The base64 encoding of some bytes: each three bytes give four characters,
/// and a last block of one or two bytes is padded.
pub open spec fn base64_standard(data: Seq<u8>) -> Seq<char>
    decreases data.len(),
{
    if data.len() == 0 {
        Seq::empty()
    } else if data.len() == 1 {
        let bits = data[0] * 16;
        seq![sextet(bits / 64), sextet(bits % 64), '=', '=']
    } else if data.len() == 2 {
        let bits = (data[0] * 256 + data[1]) * 4;
        seq![sextet(bits / 4096), sextet(bits / 64 % 64), sextet(bits % 64), '=']
    } else {
        let bits = data[0] * 65536 + data[1] * 256 + data[2];
        seq![
            sextet(bits / 262144),
            sextet(bits / 4096 % 64),
            sextet(bits / 64 % 64),
            sextet(bits % 64),
        ] + base64_standard(data.skip(3))
    }
}

/// The bytes that a base64 encoding stands for.
pub open spec fn base64_decoded(text: Seq<char>) -> Seq<u8>
    decreases text.len(),
{
    if text.len() < 4 {
        Seq::empty()
    } else {
        let high = sextet_value(text[0]) * 64 + sextet_value(text[1]);
        if text[2] == '=' {
            seq![(high / 16) as u8]
        } else if text[3] == '=' {
            let bits = (high * 64 + sextet_value(text[2])) / 4;
            seq![(bits / 256) as u8, (bits % 256) as u8]
        } else {
            let bits = (high * 64 + sextet_value(text[2])) * 64 + sextet_value(text[3]);
            seq![(bits / 65536) as u8, (bits / 256 % 256) as u8, (bits % 256) as u8]
                + base64_decoded(text.skip(4))
        }
    }
}

/// The number of characters in the encoding of `length` bytes.
pub open spec fn base64_length(length: nat) -> nat {
    4 * ((length + 2) / 3)
}

/// A character stands for the number that it was chosen for, and is no padding.
proof fn sextets_are_distinct(n: int)
    requires
        0 <= n < 64,
    ensures
        sextet_value(sextet(n)) == n,
        sextet(n) != '=',
{
}

/// A number below 2^24 in base 64, and the three bytes of one.
proof fn digits_of_block(a: int, b: int, c: int)
    requires
        0 <= a < 256,
        0 <= b < 256,
        0 <= c < 256,
    ensures
        ({
            let bits = a * 65536 + b * 256 + c;
            &&& 0 <= bits / 262144 < 64
            &&& 0 <= bits / 4096 % 64 < 64
            &&& 0 <= bits / 64 % 64 < 64
            &&& 0 <= bits % 64 < 64
            &&& ((bits / 262144 * 64 + bits / 4096 % 64) * 64 + bits / 64 % 64) * 64 + bits % 64
                == bits
            &&& bits / 65536 == a
            &&& bits / 256 % 256 == b
            &&& bits % 256 == c
        }),
{
    let bits = a * 65536 + b * 256 + c;
    vstd::arithmetic::div_mod::lemma_div_denominator(bits, 64, 64);
    vstd::arithmetic::div_mod::lemma_div_denominator(bits, 4096, 64);
    let upper = a * 256 + b;
    vstd::arithmetic::div_mod::lemma_fundamental_div_mod_converse(bits, 256, upper, c);
    vstd::arithmetic::div_mod::lemma_fundamental_div_mod_converse(upper, 256, a, b);
    vstd::arithmetic::div_mod::lemma_div_denominator(bits, 256, 256);
    base_64_digits(bits, bits / 64, bits / 4096, bits / 262144);
}

/// A number is put together again from its digits in base 64.
proof fn base_64_digits(bits: int, by_one: int, by_two: int, by_three: int)
    requires
        0 <= bits < 16777216,
        by_one == bits / 64,
        by_two == by_one / 64,
        by_three == by_two / 64,
    ensures
        0 <= by_three < 64,
        ((by_three * 64 + by_two % 64) * 64 + by_one % 64) * 64 + bits % 64 == bits,
{
    assert(bits == by_one * 64 + bits % 64);
    assert(by_one == by_two * 64 + by_one % 64);
    assert(by_two == by_three * 64 + by_two % 64);
}

/// Decoding gives back the first block of three bytes, and goes on behind it.
proof fn full_block_decodes(data: Seq<u8>)
    requires
        data.len() >= 3,
    ensures
        base64_decoded(base64_standard(data)) == data.take(3) + base64_decoded(
            base64_standard(data.skip(3)),
        ),
{
    let text = base64_standard(data);
    let bits = data[0] * 65536 + data[1] * 256 + data[2];
    digits_of_block(data[0] as int, data[1] as int, data[2] as int);
    sextets_are_distinct(bits / 262144);
    sextets_are_distinct(bits / 4096 % 64);
    sextets_are_distinct(bits / 64 % 64);
    sextets_are_distinct(bits % 64);
    let rest = base64_standard(data.skip(3));
    assert(text[0] == sextet(bits / 262144));
    assert(text[1] == sextet(bits / 4096 % 64));
    assert(text[2] == sextet(bits / 64 % 64));
    assert(text[3] == sextet(bits % 64));
    assert(text.skip(4) =~= rest);
    assert(base64_decoded(text) == seq![
        (bits / 65536) as u8,
        (bits / 256 % 256) as u8,
        (bits % 256) as u8,
    ] + base64_decoded(rest));
    assert(data.take(3) =~= seq![data[0], data[1], data[2]]);
}

/// Decoding gives back a block of one or two bytes.
proof fn padded_block_decodes(data: Seq<u8>)
    requires
        1 <= data.len() <= 2,
    ensures
        base64_decoded(base64_standard(data)) == data,
{
    let text = base64_standard(data);
    if data.len() == 1 {
        let bits = data[0] * 16;
        sextets_are_distinct(bits / 64);
        sextets_are_distinct(bits % 64);
        assert(base64_decoded(text) =~= data);
    } else {
        let bits = (data[0] * 256 + data[1]) * 4;
        sextets_are_distinct(bits / 4096);
        sextets_are_distinct(bits / 64 % 64);
        sextets_are_distinct(bits % 64);
        assert((bits / 4096 * 64 + bits / 64 % 64) * 64 + bits % 64 == bits);
        assert(base64_decoded(text) =~= data);
    }
}

/// Decoding gives back what was encoded.
pub proof fn decoding_undoes_encoding(data: Seq<u8>)
    ensures
        base64_decoded(base64_standard(data)) == data,
    decreases data.len(),
{
    if data.len() == 0 {
        assert(base64_decoded(base64_standard(data)) =~= data);
    } else if data.len() < 3 {
        padded_block_decodes(data);
    } else {
        full_block_decodes(data);
        decoding_undoes_encoding(data.skip(3));
        assert(data.take(3) + data.skip(3) =~= data);
    }
}

/// Different bytes have different encodings.
pub proof fn encoding_is_injective(first: Seq<u8>, second: Seq<u8>)
    requires
        base64_standard(first) == base64_standard(second),
    ensures
        first == second,
{
    decoding_undoes_encoding(first);
    decoding_undoes_encoding(second);
}

/// The encoding has the length that is reckoned with.
pub proof fn encoding_has_length(data: Seq<u8>)
    ensures
        base64_standard(data).len() == base64_length(data.len()),
    decreases data.len(),
{
    if data.len() >= 3 {
        encoding_has_length(data.skip(3));
    }
}

} // verus!
