//! The encode pipeline: the mode classifier, the three mode encoders, and
//! the stream finalizer that terminates, byte-aligns and pads the stream to
//! the exact data-bit budget of the chosen version and level.

use vstd::prelude::*;
use crate::bits::{bits_of, lemma_bits_of_len, zeros};
use vstd::arithmetic::power2::*;
use crate::ecl::ECL;
use crate::hardcode::{cci_bits, data_bits, lemma_data_codewords_bound, spec_cci_bits, spec_data_bits};
use crate::version::{Version, lemma_fits_bounds, spec_resolve};
use crate::bitstring::{BitString, MAX_DATA_BITS};

verus! {

/// Data-encoding scheme controlling bit-packing density.
#[derive(Debug, Clone, Copy, PartialEq, Eq)]
pub enum Mode {
    /// ASCII digits, packed three to ten bits.
    Numeric,
    /// The QR alphanumeric set, packed two to eleven bits.
    Alphanumeric,
    /// Arbitrary bytes, packed one to eight bits.
    Byte,
}

/// An ASCII digit.
pub open spec fn is_digit(b: u8) -> bool {
    48 <= b <= 57
}

/// A member of the QR alphanumeric character set: digits, letters (either
/// case), space and the nine symbols with alphanumeric values.
pub open spec fn is_alnum(b: u8) -> bool {
    ||| is_digit(b)
    ||| 65 <= b <= 90
    ||| 97 <= b <= 122
    ||| b == 32
    ||| b == 36
    ||| b == 37
    ||| b == 42
    ||| b == 43
    ||| b == 45
    ||| b == 46
    ||| b == 47
    ||| b == 58
}

/// Numeric value of an ASCII digit.
pub open spec fn digit_value(b: u8) -> int {
    b - 48
}

/// Alphanumeric value of a byte: digits keep their value, letters count
/// from 10 regardless of case, then space and the nine symbols follow.
pub open spec fn alnum_value(b: u8) -> int {
    if is_digit(b) {
        b - 48
    } else if 65 <= b <= 90 {
        b - 55
    } else if 97 <= b <= 122 {
        b - 87
    } else if b == 32 {
        36
    } else if b == 36 {
        37
    } else if b == 37 {
        38
    } else if b == 42 {
        39
    } else if b == 43 {
        40
    } else if b == 45 {
        41
    } else if b == 46 {
        42
    } else if b == 47 {
        43
    } else if b == 58 {
        44
    } else {
        45
    }
}

/// Every byte is an ASCII digit.
pub open spec fn all_digits(s: Seq<u8>) -> bool {
    forall|i: int| 0 <= i < s.len() ==> is_digit(#[trigger] s[i])
}

/// Every byte belongs to the QR alphanumeric set.
pub open spec fn all_alnum(s: Seq<u8>) -> bool {
    forall|i: int| 0 <= i < s.len() ==> is_alnum(#[trigger] s[i])
}

/// The cheapest mode that represents the input losslessly, in the fixed
/// preference order Numeric, then Alphanumeric, then Byte.
pub open spec fn spec_best_encoding(s: Seq<u8>) -> Mode {
    if all_digits(s) {
        Mode::Numeric
    } else if all_alnum(s) {
        Mode::Alphanumeric
    } else {
        Mode::Byte
    }
}

/// Whether a mode can represent the input losslessly.
pub open spec fn spec_valid_input(mode: Mode, s: Seq<u8>) -> bool {
    match mode {
        Mode::Numeric => all_digits(s),
        Mode::Alphanumeric => all_alnum(s),
        Mode::Byte => true,
    }
}

/// Returns whether the byte belongs to the QR alphanumeric set.
pub fn is_qr_alphanumeric(c: u8) -> (r: bool)
    ensures
        r == is_alnum(c),
{
    if (c >= 65 && c <= 90) || (c >= 97 && c <= 122) || (c >= 48 && c <= 57) {
        true
    } else {
        match c {
            32 | 36 | 37 | 42 | 43 | 45 | 46 | 47 | 58 => true,
            _ => false,
        }
    }
}

/// Returns the numeric value of an ASCII digit.
pub fn ascii_to_digit(c: u8) -> (r: usize)
    requires
        is_digit(c),
    ensures
        r == digit_value(c),
{
    (c - 48) as usize
}

/// Returns the alphanumeric value of a byte of the QR alphanumeric set,
/// and `usize::MAX` for any other byte.
pub fn ascii_to_alphanumeric(c: u8) -> (r: usize)
    ensures
        is_alnum(c) ==> r == alnum_value(c),
        !is_alnum(c) ==> r == usize::MAX,
{
    if c >= 48 && c <= 57 {
        (c - 48) as usize
    } else if c >= 65 && c <= 90 {
        (c - 65) as usize + 10
    } else if c >= 97 && c <= 122 {
        (c - 97) as usize + 10
    } else {
        match c {
            32 => 36,
            36 => 37,
            37 => 38,
            42 => 39,
            43 => 40,
            45 => 41,
            46 => 42,
            47 => 43,
            58 => 44,
            _ => usize::MAX,
        }
    }
}

/// Returns the cheapest mode capable of representing the input losslessly.
/// Empty input classifies as Numeric.
pub fn best_encoding(input: &[u8]) -> (r: Mode)
    ensures
        r == spec_best_encoding(input@),
        all_digits(input@) ==> r == Mode::Numeric,
        !all_digits(input@) && all_alnum(input@) ==> r == Mode::Alphanumeric,
        !all_alnum(input@) ==> r == Mode::Byte,
{
    let n = input.len();
    let mut i: usize = 0;
    while i < n
        invariant
            n == input@.len(),
            i <= n,
            forall|k: int| 0 <= k < i ==> is_digit(#[trigger] input@[k]),
        decreases n - i,
    {
        if !(input[i] >= 48 && input[i] <= 57) {
            let mut j: usize = i;
            while j < n
                invariant
                    n == input@.len(),
                    i < n,
                    j <= n,
                    !is_digit(input@[i as int]),
                    forall|k: int| 0 <= k < i ==> is_digit(#[trigger] input@[k]),
                    forall|k: int| i <= k < j ==> is_alnum(#[trigger] input@[k]),
                decreases n - j,
            {
                if !is_qr_alphanumeric(input[j]) {
                    assert(!is_alnum(input@[j as int]));
                    return Mode::Byte;
                }
                j += 1;
            }
            assert(all_alnum(input@));
            return Mode::Alphanumeric;
        }
        i += 1;
    }
    Mode::Numeric
}


/// The 4-bit indicator that tags a mode at the front of its stream.
pub open spec fn spec_mode_indicator(mode: Mode) -> nat {
    match mode {
        Mode::Numeric => 1,
        Mode::Alphanumeric => 2,
        Mode::Byte => 4,
    }
}

/// Packed payload of Numeric mode: digits in groups of three from the
/// front, ten bits per full group; a final partial group of two digits
/// takes seven bits, of one digit four bits.
pub open spec fn numeric_payload(s: Seq<u8>) -> Seq<bool>
    decreases s.len(),
{
    let n = s.len() as int;
    if n == 0 {
        Seq::empty()
    } else if n % 3 == 1 {
        numeric_payload(s.take(n - 1)) + bits_of(digit_value(s[n - 1]) as nat, 4)
    } else if n % 3 == 2 {
        numeric_payload(s.take(n - 2)) + bits_of(
            (digit_value(s[n - 2]) * 10 + digit_value(s[n - 1])) as nat,
            7,
        )
    } else {
        numeric_payload(s.take(n - 3)) + bits_of(
            (digit_value(s[n - 3]) * 100 + digit_value(s[n - 2]) * 10 + digit_value(
                s[n - 1],
            )) as nat,
            10,
        )
    }
}

/// Packed payload of Alphanumeric mode: pairs from the front, eleven bits
/// per pair holding first value times 45 plus second value; a trailing
/// single character takes six bits.
pub open spec fn alnum_payload(s: Seq<u8>) -> Seq<bool>
    decreases s.len(),
{
    let n = s.len() as int;
    if n == 0 {
        Seq::empty()
    } else if n % 2 == 1 {
        alnum_payload(s.take(n - 1)) + bits_of(alnum_value(s[n - 1]) as nat, 6)
    } else {
        alnum_payload(s.take(n - 2)) + bits_of(
            (alnum_value(s[n - 2]) * 45 + alnum_value(s[n - 1])) as nat,
            11,
        )
    }
}

/// Packed payload of Byte mode: each byte verbatim, eight bits, in order.
pub open spec fn byte_payload(s: Seq<u8>) -> Seq<bool>
    decreases s.len(),
{
    if s.len() == 0 {
        Seq::empty()
    } else {
        byte_payload(s.drop_last()) + bits_of(s.last() as nat, 8)
    }
}

/// Packed payload of a mode.
pub open spec fn spec_payload(mode: Mode, s: Seq<u8>) -> Seq<bool> {
    match mode {
        Mode::Numeric => numeric_payload(s),
        Mode::Alphanumeric => alnum_payload(s),
        Mode::Byte => byte_payload(s),
    }
}

/// Bit length of the Numeric payload of `n` digits.
pub open spec fn numeric_payload_len(n: nat) -> nat {
    10 * (n / 3) + (if n % 3 == 1 {
        4nat
    } else if n % 3 == 2 {
        7nat
    } else {
        0nat
    })
}

/// Bit length of the Alphanumeric payload of `n` characters.
pub open spec fn alnum_payload_len(n: nat) -> nat {
    11 * (n / 2) + 6 * (n % 2)
}

/// Bit length of the Byte payload of `n` bytes.
pub open spec fn byte_payload_len(n: nat) -> nat {
    8 * n
}

/// Bit length of a mode's payload for `n` input bytes.
pub open spec fn spec_payload_len(mode: Mode, n: nat) -> nat {
    match mode {
        Mode::Numeric => numeric_payload_len(n),
        Mode::Alphanumeric => alnum_payload_len(n),
        Mode::Byte => byte_payload_len(n),
    }
}

/// The full mode-encoded stream: four indicator bits, the input length in
/// `cci` bits, then the packed payload.
pub open spec fn spec_mode_stream(mode: Mode, s: Seq<u8>, cci: nat) -> Seq<bool> {
    bits_of(spec_mode_indicator(mode), 4) + bits_of(s.len(), cci) + spec_payload(mode, s)
}

pub proof fn lemma_numeric_payload_len(s: Seq<u8>)
    ensures
        numeric_payload(s).len() == numeric_payload_len(s.len()),
    decreases s.len(),
{
    let n = s.len() as int;
    if n == 0 {
    } else if n % 3 == 1 {
        lemma_numeric_payload_len(s.take(n - 1));
        lemma_bits_of_len(digit_value(s[n - 1]) as nat, 4);
    } else if n % 3 == 2 {
        lemma_numeric_payload_len(s.take(n - 2));
        lemma_bits_of_len((digit_value(s[n - 2]) * 10 + digit_value(s[n - 1])) as nat, 7);
    } else {
        lemma_numeric_payload_len(s.take(n - 3));
        lemma_bits_of_len(
            (digit_value(s[n - 3]) * 100 + digit_value(s[n - 2]) * 10 + digit_value(
                s[n - 1],
            )) as nat,
            10,
        );
    }
}

pub proof fn lemma_alnum_payload_len(s: Seq<u8>)
    ensures
        alnum_payload(s).len() == alnum_payload_len(s.len()),
    decreases s.len(),
{
    let n = s.len() as int;
    if n == 0 {
    } else if n % 2 == 1 {
        lemma_alnum_payload_len(s.take(n - 1));
        lemma_bits_of_len(alnum_value(s[n - 1]) as nat, 6);
    } else {
        lemma_alnum_payload_len(s.take(n - 2));
        lemma_bits_of_len((alnum_value(s[n - 2]) * 45 + alnum_value(s[n - 1])) as nat, 11);
    }
}

pub proof fn lemma_byte_payload_len(s: Seq<u8>)
    ensures
        byte_payload(s).len() == byte_payload_len(s.len()),
    decreases s.len(),
{
    if s.len() > 0 {
        lemma_byte_payload_len(s.drop_last());
        lemma_bits_of_len(s.last() as nat, 8);
    }
}

/// Bit length of a mode's payload, by the single length formula.
pub proof fn lemma_payload_len(mode: Mode, s: Seq<u8>)
    ensures
        spec_payload(mode, s).len() == spec_payload_len(mode, s.len()),
{
    match mode {
        Mode::Numeric => lemma_numeric_payload_len(s),
        Mode::Alphanumeric => lemma_alnum_payload_len(s),
        Mode::Byte => lemma_byte_payload_len(s),
    }
}


/// A character-count value below `pow2(cci)` with `cci` at most 16 fits in
/// a `u16`.
proof fn lemma_cci_value_fits(len: nat, cci: nat)
    requires
        cci <= 16,
        len < pow2(cci),
    ensures
        len < 0x10000,
{
    lemma2_to64();
    if cci < 16 {
        lemma_pow2_strictly_increases(cci, 16);
    }
}

/// Encodes all-digit input: indicator `0001`, the length in `cci_bits`
/// bits, then the packed digit groups.
pub fn encode_numeric(input: &[u8], cci_bits: usize) -> (r: Option<BitString>)
    requires
        all_digits(input@),
        cci_bits <= 16,
        input@.len() < pow2(cci_bits as nat),
        4 + cci_bits + numeric_payload_len(input@.len()) <= MAX_DATA_BITS,
    ensures
        r.is_some(),
        r.unwrap()@ == spec_mode_stream(Mode::Numeric, input@, cci_bits as nat),
{
    proof {
        lemma_cci_value_fits(input@.len(), cci_bits as nat);
    }
    let n = input.len();
    let mut bs = BitString::new();
    bs.push_bits(1, 4);
    proof {
        lemma_bits_of_len(1, 4);
    }
    bs.push_bits(n as u16, cci_bits);
    let ghost header = bits_of(spec_mode_indicator(Mode::Numeric), 4) + bits_of(
        input@.len(),
        cci_bits as nat,
    );
    proof {
        lemma_bits_of_len(1, 4);
        lemma_bits_of_len(input@.len(), cci_bits as nat);
        assert(bs@ =~= header);
        assert(numeric_payload(input@.take(0)) =~= Seq::empty());
        assert(bs@ =~= header + numeric_payload(input@.take(0)));
    }
    let full = n - n % 3;
    let mut i: usize = 0;
    while i < full
        invariant
            all_digits(input@),
            n == input@.len(),
            full == n - n % 3,
            i <= full,
            i % 3 == 0,
            cci_bits <= 16,
            4 + cci_bits + numeric_payload_len(n as nat) <= MAX_DATA_BITS,
            header == bits_of(spec_mode_indicator(Mode::Numeric), 4) + bits_of(
                input@.len(),
                cci_bits as nat,
            ),
            bs@ == header + numeric_payload(input@.take(i as int)),
            bs@.len() == 4 + cci_bits + numeric_payload_len(i as nat),
        decreases full - i,
    {
        let d0 = ascii_to_digit(input[i]);
        let d1 = ascii_to_digit(input[i + 1]);
        let d2 = ascii_to_digit(input[i + 2]);
        let number = d0 * 100 + d1 * 10 + d2;
        proof {
            assert((i + 3) / 3 == i / 3 + 1);
            assert((i + 3) % 3 == 0);
            assert(i + 3 <= n);
            assert((i + 3) / 3 <= n / 3) by {
                vstd::arithmetic::div_mod::lemma_div_is_ordered((i + 3) as int, n as int, 3);
            }
            assert(numeric_payload_len((i + 3) as nat) <= numeric_payload_len(n as nat));
        }
        bs.push_bits(number as u16, 10);
        i += 3;
        proof {
            let t = input@.take(i as int);
            assert(t.len() % 3 == 0 && t.len() > 0);
            assert(t[i - 3] == input@[i - 3]);
            assert(t[i - 2] == input@[i - 2]);
            assert(t[i - 1] == input@[i - 1]);
            assert(t.take(i - 3) =~= input@.take(i - 3));
            assert(numeric_payload(t) == numeric_payload(input@.take(i - 3)) + bits_of(
                (digit_value(input@[i - 3]) * 100 + digit_value(input@[i - 2]) * 10 + digit_value(
                    input@[i - 1],
                )) as nat,
                10,
            ));
            assert(number == digit_value(input@[i - 3]) * 100 + digit_value(input@[i - 2]) * 10
                + digit_value(input@[i - 1]));
            assert(bs@ =~= header + numeric_payload(t));
            lemma_bits_of_len(number as nat, 10);
        }
    }
    if n % 3 == 1 {
        let d = ascii_to_digit(input[n - 1]);
        proof {
            assert(full / 3 == n / 3);
            assert(numeric_payload_len(n as nat) == numeric_payload_len(full as nat) + 4);
        }
        bs.push_bits(d as u16, 4);
        proof {
            assert(input@.take(n as int) =~= input@);
            assert(input@.take(full as int) =~= input@.take(n as int).take((n - 1) as int));
            assert(bs@ =~= header + numeric_payload(input@));
        }
    } else if n % 3 == 2 {
        let d0 = ascii_to_digit(input[n - 2]);
        let d1 = ascii_to_digit(input[n - 1]);
        let number = d0 * 10 + d1;
        proof {
            assert(full / 3 == n / 3);
            assert(numeric_payload_len(n as nat) == numeric_payload_len(full as nat) + 7);
        }
        bs.push_bits(number as u16, 7);
        proof {
            assert(input@.take(n as int) =~= input@);
            assert(input@.take(full as int) =~= input@.take(n as int).take((n - 2) as int));
            assert(bs@ =~= header + numeric_payload(input@));
        }
    } else {
        proof {
            assert(input@.take(full as int) =~= input@);
        }
    }
    Some(bs)
}

/// Encodes alphanumeric input: indicator `0010`, the length in `cci_bits`
/// bits, then the packed pairs.
pub fn encode_alphanumeric(input: &[u8], cci_bits: usize) -> (r: Option<BitString>)
    requires
        all_alnum(input@),
        cci_bits <= 16,
        input@.len() < pow2(cci_bits as nat),
        4 + cci_bits + alnum_payload_len(input@.len()) <= MAX_DATA_BITS,
    ensures
        r.is_some(),
        r.unwrap()@ == spec_mode_stream(Mode::Alphanumeric, input@, cci_bits as nat),
{
    proof {
        lemma_cci_value_fits(input@.len(), cci_bits as nat);
    }
    let n = input.len();
    let mut bs = BitString::new();
    bs.push_bits(2, 4);
    proof {
        lemma_bits_of_len(2, 4);
    }
    bs.push_bits(n as u16, cci_bits);
    let ghost header = bits_of(spec_mode_indicator(Mode::Alphanumeric), 4) + bits_of(
        input@.len(),
        cci_bits as nat,
    );
    proof {
        lemma_bits_of_len(2, 4);
        lemma_bits_of_len(input@.len(), cci_bits as nat);
        assert(bs@ =~= header);
        assert(alnum_payload(input@.take(0)) =~= Seq::empty());
        assert(bs@ =~= header + alnum_payload(input@.take(0)));
    }
    let full = n - n % 2;
    let mut i: usize = 0;
    while i < full
        invariant
            all_alnum(input@),
            n == input@.len(),
            full == n - n % 2,
            i <= full,
            i % 2 == 0,
            cci_bits <= 16,
            4 + cci_bits + alnum_payload_len(n as nat) <= MAX_DATA_BITS,
            header == bits_of(spec_mode_indicator(Mode::Alphanumeric), 4) + bits_of(
                input@.len(),
                cci_bits as nat,
            ),
            bs@ == header + alnum_payload(input@.take(i as int)),
            bs@.len() == 4 + cci_bits + alnum_payload_len(i as nat),
        decreases full - i,
    {
        let v0 = ascii_to_alphanumeric(input[i]);
        let v1 = ascii_to_alphanumeric(input[i + 1]);
        let number = v0 * 45 + v1;
        proof {
            assert((i + 2) / 2 == i / 2 + 1);
            assert((i + 2) % 2 == 0);
            assert((i + 2) / 2 <= n / 2) by {
                vstd::arithmetic::div_mod::lemma_div_is_ordered((i + 2) as int, n as int, 2);
            }
            assert(alnum_payload_len((i + 2) as nat) <= alnum_payload_len(n as nat));
        }
        bs.push_bits(number as u16, 11);
        i += 2;
        proof {
            let t = input@.take(i as int);
            assert(t.len() % 2 == 0 && t.len() > 0);
            assert(t[i - 2] == input@[i - 2] && t[i - 1] == input@[i - 1]);
            assert(t.take(i - 2) =~= input@.take(i - 2));
            assert(number == alnum_value(input@[i - 2]) * 45 + alnum_value(input@[i - 1]));
            assert(bs@ =~= header + alnum_payload(t));
            lemma_bits_of_len(number as nat, 11);
        }
    }
    if n % 2 == 1 {
        let v = ascii_to_alphanumeric(input[n - 1]);
        proof {
            assert(full / 2 == n / 2);
            assert(alnum_payload_len(n as nat) == alnum_payload_len(full as nat) + 6);
        }
        bs.push_bits(v as u16, 6);
        proof {
            assert(input@.take(n as int) =~= input@);
            assert(input@.take(full as int) =~= input@.take(n as int).take((n - 1) as int));
            assert(bs@ =~= header + alnum_payload(input@));
        }
    } else {
        proof {
            assert(input@.take(full as int) =~= input@);
        }
    }
    Some(bs)
}

/// Encodes arbitrary bytes: indicator `0100`, the length in `cci_bits`
/// bits, then each byte verbatim.
pub fn encode_byte(input: &[u8], cci_bits: usize) -> (r: Option<BitString>)
    requires
        cci_bits <= 16,
        input@.len() < pow2(cci_bits as nat),
        4 + cci_bits + byte_payload_len(input@.len()) <= MAX_DATA_BITS,
    ensures
        r.is_some(),
        r.unwrap()@ == spec_mode_stream(Mode::Byte, input@, cci_bits as nat),
{
    proof {
        lemma_cci_value_fits(input@.len(), cci_bits as nat);
    }
    let n = input.len();
    let mut bs = BitString::new();
    bs.push_bits(4, 4);
    proof {
        lemma_bits_of_len(4, 4);
    }
    bs.push_bits(n as u16, cci_bits);
    let ghost header = bits_of(spec_mode_indicator(Mode::Byte), 4) + bits_of(
        input@.len(),
        cci_bits as nat,
    );
    proof {
        lemma_bits_of_len(4, 4);
        lemma_bits_of_len(input@.len(), cci_bits as nat);
        assert(bs@ =~= header);
        assert(byte_payload(input@.take(0)) =~= Seq::empty());
        assert(bs@ =~= header + byte_payload(input@.take(0)));
    }
    let mut i: usize = 0;
    while i < n
        invariant
            n == input@.len(),
            i <= n,
            cci_bits <= 16,
            4 + cci_bits + byte_payload_len(n as nat) <= MAX_DATA_BITS,
            header == bits_of(spec_mode_indicator(Mode::Byte), 4) + bits_of(
                input@.len(),
                cci_bits as nat,
            ),
            bs@ == header + byte_payload(input@.take(i as int)),
            bs@.len() == 4 + cci_bits + byte_payload_len(i as nat),
        decreases n - i,
    {
        bs.push_u8(input[i]);
        i += 1;
        proof {
            let t = input@.take(i as int);
            assert(t.drop_last() =~= input@.take(i - 1));
            assert(t.last() == input@[i - 1]);
            assert(bs@ =~= header + byte_payload(t));
            lemma_bits_of_len(input@[i - 1] as nat, 8);
        }
    }
    proof {
        assert(input@.take(n as int) =~= input@);
    }
    Some(bs)
}


/// How many terminator bits are appended: four, or the remaining budget if
/// less than four remains, or none once the budget is met.
pub open spec fn terminator_len(len: nat, budget: nat) -> nat {
    if budget >= len + 4 {
        4
    } else if budget >= len {
        (budget - len) as nat
    } else {
        0
    }
}

/// Zero bits needed to reach the next byte boundary.
pub open spec fn pad8_len(len: nat) -> nat {
    ((8 - len % 8) % 8) as nat
}

/// `k` pad bytes, alternating between the two fixed pad values starting
/// with the first.
pub open spec fn fill_seq(k: nat) -> Seq<bool>
    decreases k,
{
    if k == 0 {
        Seq::empty()
    } else {
        fill_seq((k - 1) as nat) + bits_of(
            if (k - 1) % 2 == 0 {
                236nat
            } else {
                17nat
            },
            8,
        )
    }
}

pub proof fn lemma_fill_seq_len(k: nat)
    ensures
        fill_seq(k).len() == 8 * k,
    decreases k,
{
    if k > 0 {
        lemma_fill_seq_len((k - 1) as nat);
        lemma_bits_of_len(
            if (k - 1) % 2 == 0 {
                236nat
            } else {
                17nat
            },
            8,
        );
    }
}

/// The finalized stream: the mode-encoded stream, the terminator, zero
/// bits to the byte boundary, then alternating pad bytes up to the budget.
pub open spec fn spec_finalized(s: Seq<bool>, budget: nat) -> Seq<bool> {
    let t = s + zeros(terminator_len(s.len(), budget));
    let p = t + zeros(pad8_len(t.len()));
    if p.len() <= budget {
        p + fill_seq(((budget - p.len()) as nat) / 8)
    } else {
        p
    }
}

/// Appends the terminator: up to four zero bits, never exceeding the
/// remaining budget.
pub fn add_terminator(bs: BitString, data_bits: usize) -> (r: BitString)
    requires
        bs@.len() <= data_bits <= MAX_DATA_BITS,
    ensures
        r@ == bs@ + zeros(terminator_len(bs@.len(), data_bits as nat)),
{
    let ghost orig = bs@;
    let mut bs = bs;
    let remaining = data_bits - bs.len();
    let k = if remaining > 4 {
        4
    } else {
        remaining
    };
    let ghost t = terminator_len(bs@.len(), data_bits as nat);
    assert(k == t);
    let mut j: usize = 0;
    while j < k
        invariant
            j <= k,
            k == t,
            bs@.len() + (k - j) <= MAX_DATA_BITS,
            bs@ == orig + zeros(j as nat),
        decreases k - j,
    {
        bs.push(false);
        j += 1;
        proof {
            assert(bs@ =~= orig + zeros(j as nat));
        }
    }
    proof {
        assert(bs@ =~= orig + zeros(t));
    }
    bs
}


/// Appends zero bits until the stream length is a multiple of eight.
pub fn pad_to_8(bs: BitString) -> (r: BitString)
    requires
        bs@.len() + pad8_len(bs@.len()) <= MAX_DATA_BITS,
    ensures
        r@ == bs@ + zeros(pad8_len(bs@.len())),
        r@.len() % 8 == 0,
{
    let ghost orig = bs@;
    let mut bs = bs;
    let k = (8 - bs.len() % 8) % 8;
    assert(k == pad8_len(orig.len()));
    let mut j: usize = 0;
    while j < k
        invariant
            j <= k,
            k == pad8_len(orig.len()),
            orig.len() + k <= MAX_DATA_BITS,
            bs@ == orig + zeros(j as nat),
        decreases k - j,
    {
        bs.push(false);
        j += 1;
        proof {
            assert(bs@ =~= orig + zeros(j as nat));
        }
    }
    bs
}

/// Fills the stream with whole pad bytes, alternating between the two
/// fixed pad values, until it reaches the budget exactly.
pub fn fill(bs: BitString, data_bits: usize) -> (r: BitString)
    requires
        bs@.len() % 8 == 0,
        data_bits % 8 == 0,
        bs@.len() <= data_bits <= MAX_DATA_BITS,
    ensures
        r@ == bs@ + fill_seq(((data_bits - bs@.len()) as nat) / 8),
        r@.len() == data_bits,
{
    let ghost orig = bs@;
    let mut bs = bs;
    let ghost total = ((data_bits - orig.len()) as nat) / 8;
    let mut byte = false;
    proof {
        assert(fill_seq(0) =~= Seq::empty());
        assert(bs@ =~= orig + fill_seq(0));
    }
    while bs.len() < data_bits
        invariant
            orig.len() % 8 == 0,
            data_bits % 8 == 0,
            bs@.len() % 8 == 0,
            orig.len() <= bs@.len() <= data_bits <= MAX_DATA_BITS,
            bs@ == orig + fill_seq(((bs@.len() - orig.len()) as nat) / 8),
            byte == ((((bs@.len() - orig.len()) as nat) / 8) % 2 == 1),
        decreases data_bits - bs@.len(),
    {
        let ghost k = ((bs@.len() - orig.len()) as nat) / 8;
        proof {
            assert(bs@.len() + 8 <= data_bits);
        }
        bs.push_u8(if byte {
            17
        } else {
            236
        });
        byte = !byte;
        proof {
            lemma_bits_of_len(
                if k % 2 == 1 {
                    17nat
                } else {
                    236nat
                },
                8,
            );
            assert(((bs@.len() - orig.len()) as nat) / 8 == k + 1);
            assert(bs@ =~= orig + fill_seq(k + 1));
        }
    }
    proof {
        assert(((bs@.len() - orig.len()) as nat) / 8 == ((data_bits - orig.len()) as nat) / 8);
    }
    bs
}


/// Returns whether the mode can represent the input losslessly.
fn valid_for_mode(input: &[u8], mode: Mode) -> (r: bool)
    ensures
        r == spec_valid_input(mode, input@),
{
    let n = input.len();
    match mode {
        Mode::Numeric => {
            let mut i: usize = 0;
            while i < n
                invariant
                    mode == Mode::Numeric,
                    n == input@.len(),
                    i <= n,
                    forall|k: int| 0 <= k < i ==> is_digit(#[trigger] input@[k]),
                decreases n - i,
            {
                if !(input[i] >= 48 && input[i] <= 57) {
                    assert(!is_digit(input@[i as int]));
                    assert(!all_digits(input@));
                    return false;
                }
                i += 1;
            }
            true
        },
        Mode::Alphanumeric => {
            let mut i: usize = 0;
            while i < n
                invariant
                    mode == Mode::Alphanumeric,
                    n == input@.len(),
                    i <= n,
                    forall|k: int| 0 <= k < i ==> is_alnum(#[trigger] input@[k]),
                decreases n - i,
            {
                if !is_qr_alphanumeric(input[i]) {
                    assert(!is_alnum(input@[i as int]));
                    assert(!all_alnum(input@));
                    return false;
                }
                i += 1;
            }
            true
        },
        Mode::Byte => true,
    }
}

/// Encodes the input at the given level in the given mode: classifier
/// validity first, then the smallest fitting version, the mode encoder,
/// and the finalizer. Returns `None` exactly when the mode cannot
/// represent the input or no version accommodates it.
pub fn encode(input: &[u8], ecl: ECL, mode: Mode) -> (r: Option<BitString>)
    ensures
        r is Some <==> spec_valid_input(mode, input@) && spec_resolve(mode, ecl, input@.len())
            is Some,
        r matches Some(bs) ==> ({
            let version = spec_resolve(mode, ecl, input@.len()).unwrap();
            &&& bs@ == spec_finalized(
                spec_mode_stream(mode, input@, spec_cci_bits(version, mode) as nat),
                spec_data_bits(version, ecl) as nat,
            )
            &&& bs@.len() == spec_data_bits(version, ecl)
        }),
{
    if !valid_for_mode(input, mode) {
        return None;
    }
    let version = match Version::get(mode, ecl, input.len()) {
        Some(version) => version,
        None => {
            return None;
        },
    };
    let vn = version.number();
    let cci = cci_bits(version, mode);
    proof {
        lemma_fits_bounds(mode, ecl, input@.len(), version.num());
        lemma_payload_len(mode, input@);
        lemma_bits_of_len(spec_mode_indicator(mode), 4);
        lemma_bits_of_len(input@.len(), cci as nat);
    }
    let bs = match mode {
        Mode::Numeric => encode_numeric(input, cci),
        Mode::Alphanumeric => encode_alphanumeric(input, cci),
        Mode::Byte => encode_byte(input, cci),
    };
    let bs = match bs {
        Some(bs) => bs,
        None => {
            return None;
        },
    };
    let db = data_bits(version, ecl);
    proof {
        lemma_data_codewords_bound(version.num(), ecl);
        assert(bs@.len() + 4 <= db);
    }
    let bs = finalize(bs, db);
    Some(bs)
}

/// Terminates, byte-aligns and pads the stream to exactly `data_bits`.
fn finalize(bs: BitString, data_bits: usize) -> (r: BitString)
    requires
        bs@.len() + 4 <= data_bits,
        data_bits % 8 == 0,
        data_bits <= MAX_DATA_BITS,
    ensures
        r@ == spec_finalized(bs@, data_bits as nat),
        r@.len() == data_bits,
{
    let ghost stream = bs@;
    let db = data_bits;
    let bs = add_terminator(bs, db);
    let ghost terminated = stream + zeros(terminator_len(stream.len(), db as nat));
    proof {
        assert(bs@ == terminated);
        assert(terminated.len() == stream.len() + 4);
        let l = terminated.len();
        assert((l + pad8_len(l)) % 8 == 0) by {
            assert(pad8_len(l) == ((8 - l % 8) % 8) as nat);
        }
        assert(l + pad8_len(l) <= db) by {
            if l + pad8_len(l) > db {
                assert(db - l < 8);
                assert((l + pad8_len(l)) % 8 == 0);
                assert(db % 8 == 0);
            }
        }
    }
    let bs = pad_to_8(bs);
    let ghost padded = terminated + zeros(pad8_len(terminated.len()));
    proof {
        assert(bs@ == padded);
        assert(padded.len() <= db);
        assert(padded.len() % 8 == 0);
    }
    let bs = fill(bs, db);
    proof {
        assert(bs@ == padded + fill_seq(((db - padded.len()) as nat) / 8));
        assert(bs@ == spec_finalized(stream, db as nat));
    }
    bs
}

} // verus!
