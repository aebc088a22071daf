//! The reading direction of the bit packing: specification-level decoders
//! for the three mode payloads, and the proofs that decoding the stream a
//! mode encoder produces recovers the original input exactly.

use vstd::prelude::*;
use vstd::arithmetic::power2::*;
use crate::bits::{bits_of, int_of, lemma_bits_of_len, lemma_int_of_bits_of};
use crate::encode::{
    Mode, all_digits, alnum_payload, alnum_value, byte_payload, digit_value, is_alnum, is_digit,
    lemma_alnum_payload_len, lemma_byte_payload_len, lemma_numeric_payload_len, numeric_payload,
    spec_mode_indicator, spec_mode_stream,
};

verus! {

/// The ASCII digit with a numeric value.
pub open spec fn digit_char(v: int) -> u8 {
    (v + 48) as u8
}

/// The canonical character with an alphanumeric value: digits, then
/// uppercase letters, then space and the nine symbols.
pub open spec fn alnum_char(v: int) -> u8 {
    if v <= 9 {
        (v + 48) as u8
    } else if v <= 35 {
        (v + 55) as u8
    } else if v == 36 {
        32
    } else if v == 37 {
        36
    } else if v == 38 {
        37
    } else if v == 39 {
        42
    } else if v == 40 {
        43
    } else if v == 41 {
        45
    } else if v == 42 {
        46
    } else if v == 43 {
        47
    } else {
        58
    }
}

/// A member of the alphanumeric set in its canonical spelling: everything
/// but a lowercase letter, which shares its value with the uppercase one.
pub open spec fn is_canonical_alnum(b: u8) -> bool {
    is_alnum(b) && !(97 <= b <= 122)
}

/// Every byte is a canonically spelled member of the alphanumeric set.
pub open spec fn all_canonical_alnum(s: Seq<u8>) -> bool {
    forall|i: int| 0 <= i < s.len() ==> is_canonical_alnum(#[trigger] s[i])
}

/// Reads `n` digits back out of a Numeric payload, last group first.
pub open spec fn decode_numeric_payload(bits: Seq<bool>, n: nat) -> Seq<u8>
    decreases n,
{
    let l = bits.len() as int;
    if n == 0 {
        Seq::empty()
    } else if n % 3 == 1 {
        let v = int_of(bits.skip(l - 4)) as int;
        decode_numeric_payload(bits.take(l - 4), (n - 1) as nat).push(digit_char(v))
    } else if n % 3 == 2 {
        let v = int_of(bits.skip(l - 7)) as int;
        decode_numeric_payload(bits.take(l - 7), (n - 2) as nat) + seq![
            digit_char(v / 10),
            digit_char(v % 10),
        ]
    } else {
        let v = int_of(bits.skip(l - 10)) as int;
        decode_numeric_payload(bits.take(l - 10), (n - 3) as nat) + seq![
            digit_char(v / 100),
            digit_char((v / 10) % 10),
            digit_char(v % 10),
        ]
    }
}

/// Reads `n` characters back out of an Alphanumeric payload.
pub open spec fn decode_alnum_payload(bits: Seq<bool>, n: nat) -> Seq<u8>
    decreases n,
{
    let l = bits.len() as int;
    if n == 0 {
        Seq::empty()
    } else if n % 2 == 1 {
        let v = int_of(bits.skip(l - 6)) as int;
        decode_alnum_payload(bits.take(l - 6), (n - 1) as nat).push(alnum_char(v))
    } else {
        let v = int_of(bits.skip(l - 11)) as int;
        decode_alnum_payload(bits.take(l - 11), (n - 2) as nat) + seq![
            alnum_char(v / 45),
            alnum_char(v % 45),
        ]
    }
}

/// Reads `n` bytes back out of a Byte payload.
pub open spec fn decode_byte_payload(bits: Seq<bool>, n: nat) -> Seq<u8>
    decreases n,
{
    let l = bits.len() as int;
    if n == 0 {
        Seq::empty()
    } else {
        decode_byte_payload(bits.take(l - 8), (n - 1) as nat).push(int_of(bits.skip(l - 8)) as u8)
    }
}

/// Decoding the Numeric payload of all-digit input recovers the input.
pub proof fn lemma_numeric_payload_round_trip(s: Seq<u8>)
    requires
        all_digits(s),
    ensures
        decode_numeric_payload(numeric_payload(s), s.len()) == s,
    decreases s.len(),
{
    lemma2_to64();
    let n = s.len() as int;
    if n == 0 {
        assert(decode_numeric_payload(numeric_payload(s), s.len()) =~= s);
    } else if n % 3 == 1 {
        let prefix = s.take(n - 1);
        let d = digit_value(s[n - 1]);
        let p = numeric_payload(prefix);
        let b = bits_of(d as nat, 4);
        lemma_numeric_payload_len(prefix);
        lemma_bits_of_len(d as nat, 4);
        assert(is_digit(s[n - 1]));
        lemma_int_of_bits_of(d as nat, 4);
        let whole = numeric_payload(s);
        assert(whole == p + b);
        assert(whole.skip(whole.len() - 4) =~= b);
        assert(whole.take(whole.len() - 4) =~= p);
        assert(all_digits(prefix));
        lemma_numeric_payload_round_trip(prefix);
        assert(digit_char(d) == s[n - 1]);
        assert(decode_numeric_payload(whole, s.len()) =~= s);
    } else if n % 3 == 2 {
        let prefix = s.take(n - 2);
        let a = digit_value(s[n - 2]);
        let c = digit_value(s[n - 1]);
        let v = a * 10 + c;
        let p = numeric_payload(prefix);
        let b = bits_of(v as nat, 7);
        lemma_numeric_payload_len(prefix);
        lemma_bits_of_len(v as nat, 7);
        assert(is_digit(s[n - 2]) && is_digit(s[n - 1]));
        assert(0 <= v < 128);
        lemma_int_of_bits_of(v as nat, 7);
        let whole = numeric_payload(s);
        assert(whole == p + b);
        assert(whole.skip(whole.len() - 7) =~= b);
        assert(whole.take(whole.len() - 7) =~= p);
        assert(all_digits(prefix));
        lemma_numeric_payload_round_trip(prefix);
        assert(v / 10 == a && v % 10 == c);
        assert(decode_numeric_payload(whole, s.len()) =~= s);
    } else {
        let prefix = s.take(n - 3);
        let a = digit_value(s[n - 3]);
        let c = digit_value(s[n - 2]);
        let e = digit_value(s[n - 1]);
        let v = a * 100 + c * 10 + e;
        let p = numeric_payload(prefix);
        let b = bits_of(v as nat, 10);
        lemma_numeric_payload_len(prefix);
        lemma_bits_of_len(v as nat, 10);
        assert(is_digit(s[n - 3]) && is_digit(s[n - 2]) && is_digit(s[n - 1]));
        assert(0 <= v < 1024);
        lemma_int_of_bits_of(v as nat, 10);
        let whole = numeric_payload(s);
        assert(whole == p + b);
        assert(whole.skip(whole.len() - 10) =~= b);
        assert(whole.take(whole.len() - 10) =~= p);
        assert(all_digits(prefix));
        lemma_numeric_payload_round_trip(prefix);
        assert(v / 100 == a && (v / 10) % 10 == c && v % 10 == e);
        assert(decode_numeric_payload(whole, s.len()) =~= s);
    }
}

/// A canonical alphanumeric character is recovered from its value.
proof fn lemma_alnum_char_value(b: u8)
    requires
        is_canonical_alnum(b),
    ensures
        0 <= alnum_value(b) <= 44,
        alnum_char(alnum_value(b)) == b,
{
}

/// Decoding the Alphanumeric payload of canonically spelled input
/// recovers the input.
pub proof fn lemma_alnum_payload_round_trip(s: Seq<u8>)
    requires
        all_canonical_alnum(s),
    ensures
        decode_alnum_payload(alnum_payload(s), s.len()) == s,
    decreases s.len(),
{
    lemma2_to64();
    let n = s.len() as int;
    if n == 0 {
        assert(decode_alnum_payload(alnum_payload(s), s.len()) =~= s);
    } else if n % 2 == 1 {
        let prefix = s.take(n - 1);
        lemma_alnum_char_value(s[n - 1]);
        let d = alnum_value(s[n - 1]);
        let p = alnum_payload(prefix);
        let b = bits_of(d as nat, 6);
        lemma_alnum_payload_len(prefix);
        lemma_bits_of_len(d as nat, 6);
        lemma_int_of_bits_of(d as nat, 6);
        let whole = alnum_payload(s);
        assert(whole == p + b);
        assert(whole.skip(whole.len() - 6) =~= b);
        assert(whole.take(whole.len() - 6) =~= p);
        assert(all_canonical_alnum(prefix));
        lemma_alnum_payload_round_trip(prefix);
        assert(decode_alnum_payload(whole, s.len()) =~= s);
    } else {
        let prefix = s.take(n - 2);
        lemma_alnum_char_value(s[n - 2]);
        lemma_alnum_char_value(s[n - 1]);
        let a = alnum_value(s[n - 2]);
        let c = alnum_value(s[n - 1]);
        let v = a * 45 + c;
        let p = alnum_payload(prefix);
        let b = bits_of(v as nat, 11);
        lemma_alnum_payload_len(prefix);
        lemma_bits_of_len(v as nat, 11);
        assert(0 <= v < 2048);
        lemma_int_of_bits_of(v as nat, 11);
        let whole = alnum_payload(s);
        assert(whole == p + b);
        assert(whole.skip(whole.len() - 11) =~= b);
        assert(whole.take(whole.len() - 11) =~= p);
        assert(all_canonical_alnum(prefix));
        lemma_alnum_payload_round_trip(prefix);
        assert(v / 45 == a && v % 45 == c);
        assert(decode_alnum_payload(whole, s.len()) =~= s);
    }
}

/// Decoding the Byte payload recovers the input, for every input.
pub proof fn lemma_byte_payload_round_trip(s: Seq<u8>)
    ensures
        decode_byte_payload(byte_payload(s), s.len()) == s,
    decreases s.len(),
{
    lemma2_to64();
    let n = s.len() as int;
    if n == 0 {
        assert(decode_byte_payload(byte_payload(s), s.len()) =~= s);
    } else {
        let prefix = s.drop_last();
        let p = byte_payload(prefix);
        let b = bits_of(s.last() as nat, 8);
        lemma_byte_payload_len(prefix);
        lemma_bits_of_len(s.last() as nat, 8);
        lemma_int_of_bits_of(s.last() as nat, 8);
        let whole = byte_payload(s);
        assert(whole == p + b);
        assert(whole.skip(whole.len() - 8) =~= b);
        assert(whole.take(whole.len() - 8) =~= p);
        lemma_byte_payload_round_trip(prefix);
        assert(decode_byte_payload(whole, s.len()) =~= s);
    }
}


/// Round trip of a full Numeric stream: the first four bits name the mode,
/// the next `cci` bits hold the input length, and decoding the rest with
/// that length recovers the input exactly.
pub proof fn lemma_numeric_stream_round_trip(s: Seq<u8>, cci: nat)
    requires
        all_digits(s),
        s.len() < pow2(cci),
    ensures
        ({
            let stream = spec_mode_stream(Mode::Numeric, s, cci);
            &&& stream.take(4) == bits_of(spec_mode_indicator(Mode::Numeric), 4)
            &&& int_of(stream.subrange(4, 4 + cci as int)) == s.len()
            &&& decode_numeric_payload(stream.skip(4 + cci as int), s.len()) == s
        }),
{
    let stream = spec_mode_stream(Mode::Numeric, s, cci);
    lemma_bits_of_len(spec_mode_indicator(Mode::Numeric), 4);
    lemma_bits_of_len(s.len(), cci);
    lemma_numeric_payload_len(s);
    assert(stream.take(4) =~= bits_of(spec_mode_indicator(Mode::Numeric), 4));
    assert(stream.subrange(4, 4 + cci as int) =~= bits_of(s.len(), cci));
    lemma_int_of_bits_of(s.len(), cci);
    assert(stream.skip(4 + cci as int) =~= numeric_payload(s));
    lemma_numeric_payload_round_trip(s);
}

/// Round trip of a full Alphanumeric stream, for canonically spelled
/// input: indicator, length, and the characters themselves come back.
pub proof fn lemma_alnum_stream_round_trip(s: Seq<u8>, cci: nat)
    requires
        all_canonical_alnum(s),
        s.len() < pow2(cci),
    ensures
        ({
            let stream = spec_mode_stream(Mode::Alphanumeric, s, cci);
            &&& stream.take(4) == bits_of(spec_mode_indicator(Mode::Alphanumeric), 4)
            &&& int_of(stream.subrange(4, 4 + cci as int)) == s.len()
            &&& decode_alnum_payload(stream.skip(4 + cci as int), s.len()) == s
        }),
{
    let stream = spec_mode_stream(Mode::Alphanumeric, s, cci);
    lemma_bits_of_len(spec_mode_indicator(Mode::Alphanumeric), 4);
    lemma_bits_of_len(s.len(), cci);
    lemma_alnum_payload_len(s);
    assert(stream.take(4) =~= bits_of(spec_mode_indicator(Mode::Alphanumeric), 4));
    assert(stream.subrange(4, 4 + cci as int) =~= bits_of(s.len(), cci));
    lemma_int_of_bits_of(s.len(), cci);
    assert(stream.skip(4 + cci as int) =~= alnum_payload(s));
    lemma_alnum_payload_round_trip(s);
}

/// Round trip of a full Byte stream, for every input.
pub proof fn lemma_byte_stream_round_trip(s: Seq<u8>, cci: nat)
    requires
        s.len() < pow2(cci),
    ensures
        ({
            let stream = spec_mode_stream(Mode::Byte, s, cci);
            &&& stream.take(4) == bits_of(spec_mode_indicator(Mode::Byte), 4)
            &&& int_of(stream.subrange(4, 4 + cci as int)) == s.len()
            &&& decode_byte_payload(stream.skip(4 + cci as int), s.len()) == s
        }),
{
    let stream = spec_mode_stream(Mode::Byte, s, cci);
    lemma_bits_of_len(spec_mode_indicator(Mode::Byte), 4);
    lemma_bits_of_len(s.len(), cci);
    lemma_byte_payload_len(s);
    assert(stream.take(4) =~= bits_of(spec_mode_indicator(Mode::Byte), 4));
    assert(stream.subrange(4, 4 + cci as int) =~= bits_of(s.len(), cci));
    lemma_int_of_bits_of(s.len(), cci);
    assert(stream.skip(4 + cci as int) =~= byte_payload(s));
    lemma_byte_payload_round_trip(s);
}

} // verus!
