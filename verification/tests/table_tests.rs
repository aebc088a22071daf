use qr_encode::ecl::ECL;
use qr_encode::encode::Mode;
use qr_encode::hardcode::{
    cci_bits, data_bits, data_codewords, ecc_to_groups, ecm_to_format_information, get_polynomial,
    percent_score,
};
use qr_encode::version::Version;

const LEVELS: [ECL; 4] = [ECL::L, ECL::M, ECL::Q, ECL::H];

#[test]
fn lookups_are_pure() {
    for v in 1..=40u8 {
        let version = Version::new(v);
        for ecl in LEVELS {
            assert_eq!(data_codewords(version, ecl), data_codewords(version, ecl));
            assert_eq!(data_bits(version, ecl), data_bits(version, ecl));
            assert_eq!(ecc_to_groups(ecl, version), ecc_to_groups(ecl, version));
            assert_eq!(get_polynomial(version, ecl), get_polynomial(version, ecl));
        }
        for mode in [Mode::Numeric, Mode::Alphanumeric, Mode::Byte] {
            assert_eq!(cci_bits(version, mode), cci_bits(version, mode));
        }
    }
    for ecl in LEVELS {
        for mask in 0..8usize {
            assert_eq!(
                ecm_to_format_information(ecl, mask),
                ecm_to_format_information(ecl, mask)
            );
        }
    }
    for p in 0..=255u8 {
        assert_eq!(percent_score(p), percent_score(p));
    }
}

#[test]
fn tables_are_mutually_consistent() {
    for v in 1..=40u8 {
        let version = Version::new(v);
        let mut total = None;
        for ecl in LEVELS {
            let groups = ecc_to_groups(ecl, version);
            let data = data_codewords(version, ecl);
            // The block groups account for exactly the declared data
            // codewords.
            assert_eq!(groups[0].0 * groups[0].1 + groups[1].0 * groups[1].1, data);
            assert_eq!(data_bits(version, ecl), data * 8);
            // The generator polynomial carries one coefficient more than
            // the error-correction codewords of one block, and data plus
            // all blocks' error-correction codewords give a total that is
            // the same at every level of the version.
            let poly = get_polynomial(version, ecl);
            assert!(poly.len() >= 8);
            assert_eq!(poly[0], 0);
            let ec_per_block = poly.len() - 1;
            let blocks = groups[0].0 + groups[1].0;
            let this_total = data + blocks * ec_per_block;
            match total {
                None => total = Some(this_total),
                Some(t) => assert_eq!(this_total, t),
            }
        }
    }
}

#[test]
fn data_codewords_known_values() {
    assert_eq!(data_codewords(Version::new(1), ECL::L), 19);
    assert_eq!(data_codewords(Version::new(1), ECL::H), 9);
    assert_eq!(data_codewords(Version::new(9), ECL::Q), 132);
    assert_eq!(data_codewords(Version::new(40), ECL::L), 2956);
    assert_eq!(data_codewords(Version::new(40), ECL::H), 1276);
    assert_eq!(data_bits(Version::new(40), ECL::L), 23648);
}

#[test]
fn group_layout_known_values() {
    assert_eq!(ecc_to_groups(ECL::L, Version::new(1)), [(1, 19), (0, 0)]);
    assert_eq!(ecc_to_groups(ECL::M, Version::new(10)), [(4, 43), (1, 44)]);
    assert_eq!(ecc_to_groups(ECL::H, Version::new(40)), [(20, 15), (61, 16)]);
}

#[test]
fn format_information_known_values() {
    assert_eq!(ecm_to_format_information(ECL::L, 0), 0b111011111000100);
    assert_eq!(ecm_to_format_information(ECL::M, 2), 0b101111001111100);
    assert_eq!(ecm_to_format_information(ECL::Q, 4), 0b010010010110100);
    assert_eq!(ecm_to_format_information(ECL::H, 7), 0b000100000111011);
}

#[test]
fn cci_bits_thresholds() {
    let cases: [(u8, usize, usize, usize); 6] = [
        (1, 10, 9, 8),
        (9, 10, 9, 8),
        (10, 12, 11, 16),
        (26, 12, 11, 16),
        (27, 14, 13, 16),
        (40, 14, 13, 16),
    ];
    for (v, numeric, alnum, byte) in cases {
        let version = Version::new(v);
        assert_eq!(cci_bits(version, Mode::Numeric), numeric);
        assert_eq!(cci_bits(version, Mode::Alphanumeric), alnum);
        assert_eq!(cci_bits(version, Mode::Byte), byte);
    }
}

#[test]
fn polynomial_known_values() {
    assert_eq!(
        get_polynomial(Version::new(1), ECL::L),
        vec![0, 87, 229, 146, 149, 238, 102, 21]
    );
    assert_eq!(
        get_polynomial(Version::new(1), ECL::M),
        vec![0, 251, 67, 46, 61, 118, 70, 64, 94, 32, 45]
    );
    assert_eq!(get_polynomial(Version::new(40), ECL::H).len(), 31);
}

#[test]
fn percent_score_steps() {
    assert_eq!(percent_score(0), 90);
    assert_eq!(percent_score(4), 90);
    assert_eq!(percent_score(5), 80);
    assert_eq!(percent_score(40), 10);
    assert_eq!(percent_score(44), 10);
    assert_eq!(percent_score(45), 0);
    assert_eq!(percent_score(50), 0);
    assert_eq!(percent_score(54), 0);
    assert_eq!(percent_score(55), 10);
    assert_eq!(percent_score(99), 90);
    assert_eq!(percent_score(100), 255);
    assert_eq!(percent_score(255), 255);
}

#[test]
fn side_length_follows_version() {
    assert_eq!(Version::new(1).side_length(), 21);
    assert_eq!(Version::new(40).side_length(), 177);
}
