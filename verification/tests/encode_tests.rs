use qr_encode::bitstring::BitString;
use qr_encode::ecl::ECL;
use qr_encode::encode::{
    add_terminator, best_encoding, encode, encode_alphanumeric, encode_byte, encode_numeric, fill,
    pad_to_8, Mode,
};
use qr_encode::hardcode::data_bits;
use qr_encode::version::Version;

fn bit_string(bs: &BitString) -> String {
    let mut out = String::new();
    let mut i: usize = 0;
    while i < bs.len() {
        out.push(if bs.get(i) { '1' } else { '0' });
        i += 1;
    }
    out
}

fn read_bits(bs: &BitString, from: usize, n: usize) -> u32 {
    let mut v: u32 = 0;
    let mut i: usize = 0;
    while i < n {
        v = v * 2 + (if bs.get(from + i) { 1 } else { 0 });
        i += 1;
    }
    v
}

#[test]
fn best_encoding_all_digits() {
    assert!(matches!(best_encoding(b"0123456789"), Mode::Numeric));
    assert!(matches!(best_encoding(b"8675309"), Mode::Numeric));
    assert!(matches!(best_encoding(b""), Mode::Numeric));
}

#[test]
fn best_encoding_alphanumeric() {
    assert!(matches!(best_encoding(b"HELLO WORLD"), Mode::Alphanumeric));
    assert!(matches!(best_encoding(b"123A"), Mode::Alphanumeric));
    assert!(matches!(best_encoding(b"$%*+-./:"), Mode::Alphanumeric));
    assert!(matches!(best_encoding(b"lower case"), Mode::Alphanumeric));
}

#[test]
fn best_encoding_byte() {
    assert!(matches!(best_encoding(b"hello, world"), Mode::Byte));
    assert!(matches!(best_encoding(b"123?"), Mode::Byte));
    assert!(matches!(best_encoding(&[0u8, 255]), Mode::Byte));
}

#[test]
fn numeric_group_widths() {
    // Four digits: one full group of three in ten bits, then the last
    // digit alone in four bits, chosen by remaining-digit count.
    let bs = encode_numeric(b"1234", 10).unwrap();
    assert_eq!(bit_string(&bs), "0001000000010000011110110100");
}

#[test]
fn numeric_leading_zero_group_keeps_width() {
    // A full group encodes in ten bits even when its value is small.
    let bs = encode_numeric(b"001", 10).unwrap();
    assert_eq!(bit_string(&bs), "000100000000110000000001");
}

#[test]
fn alphanumeric_pairs() {
    let bs = encode_alphanumeric(b"AC-42", 9).unwrap();
    // A=10, C=12: 10*45+12=462; -=41, 4=4: 41*45+4=1849; 2=2 alone.
    assert_eq!(
        bit_string(&bs),
        format!("0010{:09b}{:011b}{:011b}{:06b}", 5, 462, 1849, 2)
    );
}

#[test]
fn byte_verbatim() {
    let bs = encode_byte(&[0xF0, 0x0D], 8).unwrap();
    assert_eq!(bit_string(&bs), "0100000000101111000000001101");
}

#[test]
fn hello_world_level_q() {
    let bs = encode(b"HELLO WORLD", ECL::Q, Mode::Alphanumeric).unwrap();
    assert_eq!(
        bit_string(&bs),
        "00100000010110110000101101111000110100010111001011011100010011010100001101000000111011000001000111101100"
    );
    assert_eq!(bs.len(), data_bits(Version::new(1), ECL::Q));
}

#[test]
fn empty_input_byte_mode() {
    for ecl in [ECL::L, ECL::M, ECL::Q, ECL::H] {
        let bs = encode(b"", ecl, Mode::Byte).unwrap();
        // Mode indicator 0100, zero-valued length field, terminator,
        // then alternating pad bytes to the smallest version's budget.
        assert_eq!(read_bits(&bs, 0, 4), 0b0100);
        assert_eq!(read_bits(&bs, 4, 8), 0);
        assert_eq!(read_bits(&bs, 12, 4), 0);
        assert_eq!(bs.len(), data_bits(Version::new(1), ecl));
        let mut at: usize = 16;
        let mut ec = true;
        while at < bs.len() {
            assert_eq!(read_bits(&bs, at, 8), if ec { 0b11101100 } else { 0b00010001 });
            ec = !ec;
            at += 8;
        }
    }
}

#[test]
fn stream_length_always_matches_budget() {
    let cases: [(&[u8], ECL, Mode); 4] = [
        (b"HELLO WORLD", ECL::Q, Mode::Alphanumeric),
        (b"86753098675309867530", ECL::H, Mode::Numeric),
        (b"https://example.com/some/longer/path", ECL::M, Mode::Byte),
        (b"MIXED 123 DATA", ECL::L, Mode::Alphanumeric),
    ];
    for (input, ecl, mode) in cases {
        let bs = encode(input, ecl, mode).unwrap();
        assert_eq!(bs.len() % 8, 0);
        let mut matched = false;
        for v in 1..=40u8 {
            if bs.len() == data_bits(Version::new(v), ecl) {
                matched = true;
                break;
            }
        }
        assert!(matched);
    }
}

#[test]
fn byte_capacity_boundary() {
    // Seventeen bytes fill version 1 at level L exactly: 4 + 8 + 136
    // payload bits + 4 terminator bits equal the 152-bit budget.
    let at_boundary = encode(&[b'x'; 17], ECL::L, Mode::Byte).unwrap();
    assert_eq!(at_boundary.len(), data_bits(Version::new(1), ECL::L));
    // One byte more selects the next version up, never truncating.
    let past = encode(&[b'x'; 18], ECL::L, Mode::Byte).unwrap();
    assert_eq!(past.len(), data_bits(Version::new(2), ECL::L));
}

#[test]
fn numeric_capacity_exhaustion() {
    // 7087 digits still fit version 40 at level L; one more digit
    // exceeds every symbol and the encoder reports absence.
    let digits: Vec<u8> = (0..7087u32).map(|i| b'0' + (i % 10) as u8).collect();
    let bs = encode(&digits, ECL::L, Mode::Numeric).unwrap();
    assert_eq!(bs.len(), data_bits(Version::new(40), ECL::L));
    let digits: Vec<u8> = (0..7088u32).map(|i| b'0' + (i % 10) as u8).collect();
    assert!(encode(&digits, ECL::L, Mode::Numeric).is_none());
}

#[test]
fn forced_mode_mismatch_fails_closed() {
    assert!(encode(b"ABC", ECL::L, Mode::Numeric).is_none());
    assert!(encode(b"lower?", ECL::L, Mode::Alphanumeric).is_none());
    assert!(encode(b"ABC", ECL::L, Mode::Byte).is_some());
}

#[test]
fn numeric_round_trip() {
    let input = b"31415926535897932384626433";
    let bs = encode_numeric(input, 10).unwrap();
    assert_eq!(read_bits(&bs, 0, 4), 0b0001);
    let n = read_bits(&bs, 4, 10) as usize;
    assert_eq!(n, input.len());
    let mut decoded = Vec::new();
    let mut at: usize = 14;
    let mut left = n;
    while left >= 3 {
        let v = read_bits(&bs, at, 10);
        decoded.push(b'0' + (v / 100) as u8);
        decoded.push(b'0' + (v / 10 % 10) as u8);
        decoded.push(b'0' + (v % 10) as u8);
        at += 10;
        left -= 3;
    }
    if left == 2 {
        let v = read_bits(&bs, at, 7);
        decoded.push(b'0' + (v / 10) as u8);
        decoded.push(b'0' + (v % 10) as u8);
        at += 7;
    } else if left == 1 {
        let v = read_bits(&bs, at, 4);
        decoded.push(b'0' + v as u8);
        at += 4;
    }
    assert_eq!(at, bs.len());
    assert_eq!(&decoded, input);
}

#[test]
fn alphanumeric_round_trip() {
    const ALNUM: &[u8; 45] = b"0123456789ABCDEFGHIJKLMNOPQRSTUVWXYZ $%*+-./:";
    let input = b"HTTPS://EXAMPLE.COM/A-1 B+2";
    let bs = encode_alphanumeric(input, 9).unwrap();
    assert_eq!(read_bits(&bs, 0, 4), 0b0010);
    let n = read_bits(&bs, 4, 9) as usize;
    assert_eq!(n, input.len());
    let mut decoded = Vec::new();
    let mut at: usize = 13;
    let mut left = n;
    while left >= 2 {
        let v = read_bits(&bs, at, 11);
        decoded.push(ALNUM[(v / 45) as usize]);
        decoded.push(ALNUM[(v % 45) as usize]);
        at += 11;
        left -= 2;
    }
    if left == 1 {
        decoded.push(ALNUM[read_bits(&bs, at, 6) as usize]);
        at += 6;
    }
    assert_eq!(at, bs.len());
    assert_eq!(&decoded, input);
}

#[test]
fn byte_round_trip() {
    let input: Vec<u8> = (0..=255u32).map(|b| (b * 7 % 256) as u8).collect();
    let bs = encode_byte(&input, 16).unwrap();
    assert_eq!(read_bits(&bs, 0, 4), 0b0100);
    let n = read_bits(&bs, 4, 16) as usize;
    assert_eq!(n, input.len());
    let mut decoded = Vec::new();
    let mut at: usize = 20;
    for _ in 0..n {
        decoded.push(read_bits(&bs, at, 8) as u8);
        at += 8;
    }
    assert_eq!(at, bs.len());
    assert_eq!(decoded, input);
}

#[test]
fn finalizer_steps() {
    // A 12-bit stream against a 40-bit budget: 4 terminator bits, no
    // alignment needed at 16 bits, then three pad bytes.
    let mut bs = BitString::new();
    bs.push_bits(0b101, 12);
    let bs = add_terminator(bs, 40);
    assert_eq!(bs.len(), 16);
    let bs = pad_to_8(bs);
    assert_eq!(bs.len(), 16);
    let bs = fill(bs, 40);
    assert_eq!(bit_string(&bs), "0000000001010000111011000001000111101100");
}
