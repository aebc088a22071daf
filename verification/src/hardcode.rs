//! The structural tables: per-version, per-level constants that the QR
//! format fixes. Block-group layout, data-codeword counts, format-
//! information codewords, character-count-indicator widths, generator-
//! polynomial coefficients and the mask balance penalty weights, each as
//! a pure lookup with its value pinned by a specification table.

use vstd::prelude::*;
use crate::ecl::ECL;
use crate::encode::Mode;
use crate::version::Version;

verus! {

pub open spec fn spec_data_codewords_l(version: int) -> int {
    if version == 1 {
        19
    } else if version == 2 {
        34
    } else if version == 3 {
        55
    } else if version == 4 {
        80
    } else if version == 5 {
        108
    } else if version == 6 {
        136
    } else if version == 7 {
        156
    } else if version == 8 {
        194
    } else if version == 9 {
        232
    } else if version == 10 {
        274
    } else if version == 11 {
        324
    } else if version == 12 {
        370
    } else if version == 13 {
        428
    } else if version == 14 {
        461
    } else if version == 15 {
        523
    } else if version == 16 {
        589
    } else if version == 17 {
        647
    } else if version == 18 {
        721
    } else if version == 19 {
        795
    } else if version == 20 {
        861
    } else if version == 21 {
        932
    } else if version == 22 {
        1006
    } else if version == 23 {
        1094
    } else if version == 24 {
        1174
    } else if version == 25 {
        1276
    } else if version == 26 {
        1370
    } else if version == 27 {
        1468
    } else if version == 28 {
        1531
    } else if version == 29 {
        1631
    } else if version == 30 {
        1735
    } else if version == 31 {
        1843
    } else if version == 32 {
        1955
    } else if version == 33 {
        2071
    } else if version == 34 {
        2191
    } else if version == 35 {
        2306
    } else if version == 36 {
        2434
    } else if version == 37 {
        2566
    } else if version == 38 {
        2702
    } else if version == 39 {
        2812
    } else if version == 40 {
        2956
    } else {
        0
    }
}

pub open spec fn spec_data_codewords_m(version: int) -> int {
    if version == 1 {
        16
    } else if version == 2 {
        28
    } else if version == 3 {
        44
    } else if version == 4 {
        64
    } else if version == 5 {
        86
    } else if version == 6 {
        108
    } else if version == 7 {
        124
    } else if version == 8 {
        154
    } else if version == 9 {
        182
    } else if version == 10 {
        216
    } else if version == 11 {
        254
    } else if version == 12 {
        290
    } else if version == 13 {
        334
    } else if version == 14 {
        365
    } else if version == 15 {
        415
    } else if version == 16 {
        453
    } else if version == 17 {
        507
    } else if version == 18 {
        563
    } else if version == 19 {
        627
    } else if version == 20 {
        669
    } else if version == 21 {
        714
    } else if version == 22 {
        782
    } else if version == 23 {
        860
    } else if version == 24 {
        914
    } else if version == 25 {
        1000
    } else if version == 26 {
        1062
    } else if version == 27 {
        1128
    } else if version == 28 {
        1193
    } else if version == 29 {
        1267
    } else if version == 30 {
        1373
    } else if version == 31 {
        1455
    } else if version == 32 {
        1541
    } else if version == 33 {
        1631
    } else if version == 34 {
        1725
    } else if version == 35 {
        1812
    } else if version == 36 {
        1914
    } else if version == 37 {
        1992
    } else if version == 38 {
        2102
    } else if version == 39 {
        2216
    } else if version == 40 {
        2334
    } else {
        0
    }
}

pub open spec fn spec_data_codewords_q(version: int) -> int {
    if version == 1 {
        13
    } else if version == 2 {
        22
    } else if version == 3 {
        34
    } else if version == 4 {
        48
    } else if version == 5 {
        62
    } else if version == 6 {
        76
    } else if version == 7 {
        88
    } else if version == 8 {
        110
    } else if version == 9 {
        132
    } else if version == 10 {
        154
    } else if version == 11 {
        180
    } else if version == 12 {
        206
    } else if version == 13 {
        244
    } else if version == 14 {
        261
    } else if version == 15 {
        295
    } else if version == 16 {
        325
    } else if version == 17 {
        367
    } else if version == 18 {
        397
    } else if version == 19 {
        445
    } else if version == 20 {
        485
    } else if version == 21 {
        512
    } else if version == 22 {
        568
    } else if version == 23 {
        614
    } else if version == 24 {
        664
    } else if version == 25 {
        718
    } else if version == 26 {
        754
    } else if version == 27 {
        808
    } else if version == 28 {
        871
    } else if version == 29 {
        911
    } else if version == 30 {
        985
    } else if version == 31 {
        1033
    } else if version == 32 {
        1115
    } else if version == 33 {
        1171
    } else if version == 34 {
        1231
    } else if version == 35 {
        1286
    } else if version == 36 {
        1354
    } else if version == 37 {
        1426
    } else if version == 38 {
        1502
    } else if version == 39 {
        1582
    } else if version == 40 {
        1666
    } else {
        0
    }
}

pub open spec fn spec_data_codewords_h(version: int) -> int {
    if version == 1 {
        9
    } else if version == 2 {
        16
    } else if version == 3 {
        26
    } else if version == 4 {
        36
    } else if version == 5 {
        46
    } else if version == 6 {
        60
    } else if version == 7 {
        66
    } else if version == 8 {
        86
    } else if version == 9 {
        100
    } else if version == 10 {
        122
    } else if version == 11 {
        140
    } else if version == 12 {
        158
    } else if version == 13 {
        180
    } else if version == 14 {
        197
    } else if version == 15 {
        223
    } else if version == 16 {
        253
    } else if version == 17 {
        283
    } else if version == 18 {
        313
    } else if version == 19 {
        341
    } else if version == 20 {
        385
    } else if version == 21 {
        406
    } else if version == 22 {
        442
    } else if version == 23 {
        464
    } else if version == 24 {
        514
    } else if version == 25 {
        538
    } else if version == 26 {
        596
    } else if version == 27 {
        628
    } else if version == 28 {
        661
    } else if version == 29 {
        701
    } else if version == 30 {
        745
    } else if version == 31 {
        793
    } else if version == 32 {
        845
    } else if version == 33 {
        901
    } else if version == 34 {
        961
    } else if version == 35 {
        986
    } else if version == 36 {
        1054
    } else if version == 37 {
        1096
    } else if version == 38 {
        1142
    } else if version == 39 {
        1222
    } else if version == 40 {
        1276
    } else {
        0
    }
}

/// Number of data codewords for a (version, level) pair; 0 outside versions 1 to 40.
pub open spec fn spec_data_codewords(version: int, ecl: ECL) -> int {
    match ecl {
        ECL::L => spec_data_codewords_l(version),
        ECL::M => spec_data_codewords_m(version),
        ECL::Q => spec_data_codewords_q(version),
        ECL::H => spec_data_codewords_h(version),
    }
}

fn data_codewords_l(version: u8) -> (r: usize)
    ensures
        r == spec_data_codewords_l(version as int),
{
    match version {
        1 => 19,
        2 => 34,
        3 => 55,
        4 => 80,
        5 => 108,
        6 => 136,
        7 => 156,
        8 => 194,
        9 => 232,
        10 => 274,
        11 => 324,
        12 => 370,
        13 => 428,
        14 => 461,
        15 => 523,
        16 => 589,
        17 => 647,
        18 => 721,
        19 => 795,
        20 => 861,
        21 => 932,
        22 => 1006,
        23 => 1094,
        24 => 1174,
        25 => 1276,
        26 => 1370,
        27 => 1468,
        28 => 1531,
        29 => 1631,
        30 => 1735,
        31 => 1843,
        32 => 1955,
        33 => 2071,
        34 => 2191,
        35 => 2306,
        36 => 2434,
        37 => 2566,
        38 => 2702,
        39 => 2812,
        40 => 2956,
        _ => 0,
    }
}

fn data_codewords_m(version: u8) -> (r: usize)
    ensures
        r == spec_data_codewords_m(version as int),
{
    match version {
        1 => 16,
        2 => 28,
        3 => 44,
        4 => 64,
        5 => 86,
        6 => 108,
        7 => 124,
        8 => 154,
        9 => 182,
        10 => 216,
        11 => 254,
        12 => 290,
        13 => 334,
        14 => 365,
        15 => 415,
        16 => 453,
        17 => 507,
        18 => 563,
        19 => 627,
        20 => 669,
        21 => 714,
        22 => 782,
        23 => 860,
        24 => 914,
        25 => 1000,
        26 => 1062,
        27 => 1128,
        28 => 1193,
        29 => 1267,
        30 => 1373,
        31 => 1455,
        32 => 1541,
        33 => 1631,
        34 => 1725,
        35 => 1812,
        36 => 1914,
        37 => 1992,
        38 => 2102,
        39 => 2216,
        40 => 2334,
        _ => 0,
    }
}

fn data_codewords_q(version: u8) -> (r: usize)
    ensures
        r == spec_data_codewords_q(version as int),
{
    match version {
        1 => 13,
        2 => 22,
        3 => 34,
        4 => 48,
        5 => 62,
        6 => 76,
        7 => 88,
        8 => 110,
        9 => 132,
        10 => 154,
        11 => 180,
        12 => 206,
        13 => 244,
        14 => 261,
        15 => 295,
        16 => 325,
        17 => 367,
        18 => 397,
        19 => 445,
        20 => 485,
        21 => 512,
        22 => 568,
        23 => 614,
        24 => 664,
        25 => 718,
        26 => 754,
        27 => 808,
        28 => 871,
        29 => 911,
        30 => 985,
        31 => 1033,
        32 => 1115,
        33 => 1171,
        34 => 1231,
        35 => 1286,
        36 => 1354,
        37 => 1426,
        38 => 1502,
        39 => 1582,
        40 => 1666,
        _ => 0,
    }
}

fn data_codewords_h(version: u8) -> (r: usize)
    ensures
        r == spec_data_codewords_h(version as int),
{
    match version {
        1 => 9,
        2 => 16,
        3 => 26,
        4 => 36,
        5 => 46,
        6 => 60,
        7 => 66,
        8 => 86,
        9 => 100,
        10 => 122,
        11 => 140,
        12 => 158,
        13 => 180,
        14 => 197,
        15 => 223,
        16 => 253,
        17 => 283,
        18 => 313,
        19 => 341,
        20 => 385,
        21 => 406,
        22 => 442,
        23 => 464,
        24 => 514,
        25 => 538,
        26 => 596,
        27 => 628,
        28 => 661,
        29 => 701,
        30 => 745,
        31 => 793,
        32 => 845,
        33 => 901,
        34 => 961,
        35 => 986,
        36 => 1054,
        37 => 1096,
        38 => 1142,
        39 => 1222,
        40 => 1276,
        _ => 0,
    }
}

/// Returns the number of **data codewords** according to `version` and `ecl`.
pub fn data_codewords(version: Version, ecl: ECL) -> (r: usize)
    ensures
        r == spec_data_codewords(version.num(), ecl),
{
    match ecl {
        ECL::L => data_codewords_l(version.number()),
        ECL::M => data_codewords_m(version.number()),
        ECL::Q => data_codewords_q(version.number()),
        ECL::H => data_codewords_h(version.number()),
    }
}

/// Usable data bits for a (version, level) pair: data codewords times 8.
pub open spec fn spec_data_bits(version: int, ecl: ECL) -> int {
    spec_data_codewords(version, ecl) * 8
}

/// Returns the number of **data bits** according to `version` and `ecl`.
pub fn data_bits(version: Version, ecl: ECL) -> (r: usize)
    ensures
        r == spec_data_bits(version.num(), ecl),
{
    proof {
        lemma_data_codewords_bound(version.num(), ecl);
    }
    data_codewords(version, ecl) * 8
}

pub open spec fn spec_groups_l(version: int) -> ((int, int), (int, int)) {
    if version == 1 {
        ((1, 19), (0, 0))
    } else if version == 2 {
        ((1, 34), (0, 0))
    } else if version == 3 {
        ((1, 55), (0, 0))
    } else if version == 4 {
        ((1, 80), (0, 0))
    } else if version == 5 {
        ((1, 108), (0, 0))
    } else if version == 6 {
        ((2, 68), (0, 0))
    } else if version == 7 {
        ((2, 78), (0, 0))
    } else if version == 8 {
        ((2, 97), (0, 0))
    } else if version == 9 {
        ((2, 116), (0, 0))
    } else if version == 10 {
        ((2, 68), (2, 69))
    } else if version == 11 {
        ((4, 81), (0, 0))
    } else if version == 12 {
        ((2, 92), (2, 93))
    } else if version == 13 {
        ((4, 107), (0, 0))
    } else if version == 14 {
        ((3, 115), (1, 116))
    } else if version == 15 {
        ((5, 87), (1, 88))
    } else if version == 16 {
        ((5, 98), (1, 99))
    } else if version == 17 {
        ((1, 107), (5, 108))
    } else if version == 18 {
        ((5, 120), (1, 121))
    } else if version == 19 {
        ((3, 113), (4, 114))
    } else if version == 20 {
        ((3, 107), (5, 108))
    } else if version == 21 {
        ((4, 116), (4, 117))
    } else if version == 22 {
        ((2, 111), (7, 112))
    } else if version == 23 {
        ((4, 121), (5, 122))
    } else if version == 24 {
        ((6, 117), (4, 118))
    } else if version == 25 {
        ((8, 106), (4, 107))
    } else if version == 26 {
        ((10, 114), (2, 115))
    } else if version == 27 {
        ((8, 122), (4, 123))
    } else if version == 28 {
        ((3, 117), (10, 118))
    } else if version == 29 {
        ((7, 116), (7, 117))
    } else if version == 30 {
        ((5, 115), (10, 116))
    } else if version == 31 {
        ((13, 115), (3, 116))
    } else if version == 32 {
        ((17, 115), (0, 0))
    } else if version == 33 {
        ((17, 115), (1, 116))
    } else if version == 34 {
        ((13, 115), (6, 116))
    } else if version == 35 {
        ((12, 121), (7, 122))
    } else if version == 36 {
        ((6, 121), (14, 122))
    } else if version == 37 {
        ((17, 122), (4, 123))
    } else if version == 38 {
        ((4, 122), (18, 123))
    } else if version == 39 {
        ((20, 117), (4, 118))
    } else if version == 40 {
        ((19, 118), (6, 119))
    } else {
        ((0, 0), (0, 0))
    }
}

pub open spec fn spec_groups_m(version: int) -> ((int, int), (int, int)) {
    if version == 1 {
        ((1, 16), (0, 0))
    } else if version == 2 {
        ((1, 28), (0, 0))
    } else if version == 3 {
        ((1, 44), (0, 0))
    } else if version == 4 {
        ((2, 32), (0, 0))
    } else if version == 5 {
        ((2, 43), (0, 0))
    } else if version == 6 {
        ((4, 27), (0, 0))
    } else if version == 7 {
        ((4, 31), (0, 0))
    } else if version == 8 {
        ((2, 38), (2, 39))
    } else if version == 9 {
        ((3, 36), (2, 37))
    } else if version == 10 {
        ((4, 43), (1, 44))
    } else if version == 11 {
        ((1, 50), (4, 51))
    } else if version == 12 {
        ((6, 36), (2, 37))
    } else if version == 13 {
        ((8, 37), (1, 38))
    } else if version == 14 {
        ((4, 40), (5, 41))
    } else if version == 15 {
        ((5, 41), (5, 42))
    } else if version == 16 {
        ((7, 45), (3, 46))
    } else if version == 17 {
        ((10, 46), (1, 47))
    } else if version == 18 {
        ((9, 43), (4, 44))
    } else if version == 19 {
        ((3, 44), (11, 45))
    } else if version == 20 {
        ((3, 41), (13, 42))
    } else if version == 21 {
        ((17, 42), (0, 0))
    } else if version == 22 {
        ((17, 46), (0, 0))
    } else if version == 23 {
        ((4, 47), (14, 48))
    } else if version == 24 {
        ((6, 45), (14, 46))
    } else if version == 25 {
        ((8, 47), (13, 48))
    } else if version == 26 {
        ((19, 46), (4, 47))
    } else if version == 27 {
        ((22, 45), (3, 46))
    } else if version == 28 {
        ((3, 45), (23, 46))
    } else if version == 29 {
        ((21, 45), (7, 46))
    } else if version == 30 {
        ((19, 47), (10, 48))
    } else if version == 31 {
        ((2, 46), (29, 47))
    } else if version == 32 {
        ((10, 46), (23, 47))
    } else if version == 33 {
        ((14, 46), (21, 47))
    } else if version == 34 {
        ((14, 46), (23, 47))
    } else if version == 35 {
        ((12, 47), (26, 48))
    } else if version == 36 {
        ((6, 47), (34, 48))
    } else if version == 37 {
        ((29, 46), (14, 47))
    } else if version == 38 {
        ((13, 46), (32, 47))
    } else if version == 39 {
        ((40, 47), (7, 48))
    } else if version == 40 {
        ((18, 47), (31, 48))
    } else {
        ((0, 0), (0, 0))
    }
}

pub open spec fn spec_groups_q(version: int) -> ((int, int), (int, int)) {
    if version == 1 {
        ((1, 13), (0, 0))
    } else if version == 2 {
        ((1, 22), (0, 0))
    } else if version == 3 {
        ((2, 17), (0, 0))
    } else if version == 4 {
        ((2, 24), (0, 0))
    } else if version == 5 {
        ((2, 15), (2, 16))
    } else if version == 6 {
        ((4, 19), (0, 0))
    } else if version == 7 {
        ((2, 14), (4, 15))
    } else if version == 8 {
        ((4, 18), (2, 19))
    } else if version == 9 {
        ((4, 16), (4, 17))
    } else if version == 10 {
        ((6, 19), (2, 20))
    } else if version == 11 {
        ((4, 22), (4, 23))
    } else if version == 12 {
        ((4, 20), (6, 21))
    } else if version == 13 {
        ((8, 20), (4, 21))
    } else if version == 14 {
        ((11, 16), (5, 17))
    } else if version == 15 {
        ((5, 24), (7, 25))
    } else if version == 16 {
        ((15, 19), (2, 20))
    } else if version == 17 {
        ((1, 22), (15, 23))
    } else if version == 18 {
        ((17, 22), (1, 23))
    } else if version == 19 {
        ((17, 21), (4, 22))
    } else if version == 20 {
        ((15, 24), (5, 25))
    } else if version == 21 {
        ((17, 22), (6, 23))
    } else if version == 22 {
        ((7, 24), (16, 25))
    } else if version == 23 {
        ((11, 24), (14, 25))
    } else if version == 24 {
        ((11, 24), (16, 25))
    } else if version == 25 {
        ((7, 24), (22, 25))
    } else if version == 26 {
        ((28, 22), (6, 23))
    } else if version == 27 {
        ((8, 23), (26, 24))
    } else if version == 28 {
        ((4, 24), (31, 25))
    } else if version == 29 {
        ((1, 23), (37, 24))
    } else if version == 30 {
        ((15, 24), (25, 25))
    } else if version == 31 {
        ((42, 24), (1, 25))
    } else if version == 32 {
        ((10, 24), (35, 25))
    } else if version == 33 {
        ((29, 24), (19, 25))
    } else if version == 34 {
        ((44, 24), (7, 25))
    } else if version == 35 {
        ((39, 24), (14, 25))
    } else if version == 36 {
        ((46, 24), (10, 25))
    } else if version == 37 {
        ((49, 24), (10, 25))
    } else if version == 38 {
        ((48, 24), (14, 25))
    } else if version == 39 {
        ((43, 24), (22, 25))
    } else if version == 40 {
        ((34, 24), (34, 25))
    } else {
        ((0, 0), (0, 0))
    }
}

pub open spec fn spec_groups_h(version: int) -> ((int, int), (int, int)) {
    if version == 1 {
        ((1, 9), (0, 0))
    } else if version == 2 {
        ((1, 16), (0, 0))
    } else if version == 3 {
        ((2, 13), (0, 0))
    } else if version == 4 {
        ((4, 9), (0, 0))
    } else if version == 5 {
        ((2, 11), (2, 12))
    } else if version == 6 {
        ((4, 15), (0, 0))
    } else if version == 7 {
        ((4, 13), (1, 14))
    } else if version == 8 {
        ((4, 14), (2, 15))
    } else if version == 9 {
        ((4, 12), (4, 13))
    } else if version == 10 {
        ((6, 15), (2, 16))
    } else if version == 11 {
        ((3, 12), (8, 13))
    } else if version == 12 {
        ((7, 14), (4, 15))
    } else if version == 13 {
        ((12, 11), (4, 12))
    } else if version == 14 {
        ((11, 12), (5, 13))
    } else if version == 15 {
        ((11, 12), (7, 13))
    } else if version == 16 {
        ((3, 15), (13, 16))
    } else if version == 17 {
        ((2, 14), (17, 15))
    } else if version == 18 {
        ((2, 14), (19, 15))
    } else if version == 19 {
        ((9, 13), (16, 14))
    } else if version == 20 {
        ((15, 15), (10, 16))
    } else if version == 21 {
        ((19, 16), (6, 17))
    } else if version == 22 {
        ((34, 13), (0, 0))
    } else if version == 23 {
        ((16, 15), (14, 16))
    } else if version == 24 {
        ((30, 16), (2, 17))
    } else if version == 25 {
        ((22, 15), (13, 16))
    } else if version == 26 {
        ((33, 16), (4, 17))
    } else if version == 27 {
        ((12, 15), (28, 16))
    } else if version == 28 {
        ((11, 15), (31, 16))
    } else if version == 29 {
        ((19, 15), (26, 16))
    } else if version == 30 {
        ((23, 15), (25, 16))
    } else if version == 31 {
        ((23, 15), (28, 16))
    } else if version == 32 {
        ((19, 15), (35, 16))
    } else if version == 33 {
        ((11, 15), (46, 16))
    } else if version == 34 {
        ((59, 16), (1, 17))
    } else if version == 35 {
        ((22, 15), (41, 16))
    } else if version == 36 {
        ((2, 15), (64, 16))
    } else if version == 37 {
        ((24, 15), (46, 16))
    } else if version == 38 {
        ((42, 15), (32, 16))
    } else if version == 39 {
        ((10, 15), (67, 16))
    } else if version == 40 {
        ((20, 15), (61, 16))
    } else {
        ((0, 0), (0, 0))
    }
}

/// Block-group layout for a (level, version) pair: two (block count,
/// per-block data codeword count) pairs; the second group may be empty.
pub open spec fn spec_groups(version: int, ecl: ECL) -> ((int, int), (int, int)) {
    match ecl {
        ECL::L => spec_groups_l(version),
        ECL::M => spec_groups_m(version),
        ECL::Q => spec_groups_q(version),
        ECL::H => spec_groups_h(version),
    }
}

fn ecc_to_groups_l(version: u8) -> (r: [(usize, usize); 2])
    ensures
        r@[0].0 == spec_groups_l(version as int).0.0,
        r@[0].1 == spec_groups_l(version as int).0.1,
        r@[1].0 == spec_groups_l(version as int).1.0,
        r@[1].1 == spec_groups_l(version as int).1.1,
{
    match version {
        1 => [(1, 19), (0, 0)],
        2 => [(1, 34), (0, 0)],
        3 => [(1, 55), (0, 0)],
        4 => [(1, 80), (0, 0)],
        5 => [(1, 108), (0, 0)],
        6 => [(2, 68), (0, 0)],
        7 => [(2, 78), (0, 0)],
        8 => [(2, 97), (0, 0)],
        9 => [(2, 116), (0, 0)],
        10 => [(2, 68), (2, 69)],
        11 => [(4, 81), (0, 0)],
        12 => [(2, 92), (2, 93)],
        13 => [(4, 107), (0, 0)],
        14 => [(3, 115), (1, 116)],
        15 => [(5, 87), (1, 88)],
        16 => [(5, 98), (1, 99)],
        17 => [(1, 107), (5, 108)],
        18 => [(5, 120), (1, 121)],
        19 => [(3, 113), (4, 114)],
        20 => [(3, 107), (5, 108)],
        21 => [(4, 116), (4, 117)],
        22 => [(2, 111), (7, 112)],
        23 => [(4, 121), (5, 122)],
        24 => [(6, 117), (4, 118)],
        25 => [(8, 106), (4, 107)],
        26 => [(10, 114), (2, 115)],
        27 => [(8, 122), (4, 123)],
        28 => [(3, 117), (10, 118)],
        29 => [(7, 116), (7, 117)],
        30 => [(5, 115), (10, 116)],
        31 => [(13, 115), (3, 116)],
        32 => [(17, 115), (0, 0)],
        33 => [(17, 115), (1, 116)],
        34 => [(13, 115), (6, 116)],
        35 => [(12, 121), (7, 122)],
        36 => [(6, 121), (14, 122)],
        37 => [(17, 122), (4, 123)],
        38 => [(4, 122), (18, 123)],
        39 => [(20, 117), (4, 118)],
        40 => [(19, 118), (6, 119)],
        _ => [(0, 0), (0, 0)],
    }
}

fn ecc_to_groups_m(version: u8) -> (r: [(usize, usize); 2])
    ensures
        r@[0].0 == spec_groups_m(version as int).0.0,
        r@[0].1 == spec_groups_m(version as int).0.1,
        r@[1].0 == spec_groups_m(version as int).1.0,
        r@[1].1 == spec_groups_m(version as int).1.1,
{
    match version {
        1 => [(1, 16), (0, 0)],
        2 => [(1, 28), (0, 0)],
        3 => [(1, 44), (0, 0)],
        4 => [(2, 32), (0, 0)],
        5 => [(2, 43), (0, 0)],
        6 => [(4, 27), (0, 0)],
        7 => [(4, 31), (0, 0)],
        8 => [(2, 38), (2, 39)],
        9 => [(3, 36), (2, 37)],
        10 => [(4, 43), (1, 44)],
        11 => [(1, 50), (4, 51)],
        12 => [(6, 36), (2, 37)],
        13 => [(8, 37), (1, 38)],
        14 => [(4, 40), (5, 41)],
        15 => [(5, 41), (5, 42)],
        16 => [(7, 45), (3, 46)],
        17 => [(10, 46), (1, 47)],
        18 => [(9, 43), (4, 44)],
        19 => [(3, 44), (11, 45)],
        20 => [(3, 41), (13, 42)],
        21 => [(17, 42), (0, 0)],
        22 => [(17, 46), (0, 0)],
        23 => [(4, 47), (14, 48)],
        24 => [(6, 45), (14, 46)],
        25 => [(8, 47), (13, 48)],
        26 => [(19, 46), (4, 47)],
        27 => [(22, 45), (3, 46)],
        28 => [(3, 45), (23, 46)],
        29 => [(21, 45), (7, 46)],
        30 => [(19, 47), (10, 48)],
        31 => [(2, 46), (29, 47)],
        32 => [(10, 46), (23, 47)],
        33 => [(14, 46), (21, 47)],
        34 => [(14, 46), (23, 47)],
        35 => [(12, 47), (26, 48)],
        36 => [(6, 47), (34, 48)],
        37 => [(29, 46), (14, 47)],
        38 => [(13, 46), (32, 47)],
        39 => [(40, 47), (7, 48)],
        40 => [(18, 47), (31, 48)],
        _ => [(0, 0), (0, 0)],
    }
}

fn ecc_to_groups_q(version: u8) -> (r: [(usize, usize); 2])
    ensures
        r@[0].0 == spec_groups_q(version as int).0.0,
        r@[0].1 == spec_groups_q(version as int).0.1,
        r@[1].0 == spec_groups_q(version as int).1.0,
        r@[1].1 == spec_groups_q(version as int).1.1,
{
    match version {
        1 => [(1, 13), (0, 0)],
        2 => [(1, 22), (0, 0)],
        3 => [(2, 17), (0, 0)],
        4 => [(2, 24), (0, 0)],
        5 => [(2, 15), (2, 16)],
        6 => [(4, 19), (0, 0)],
        7 => [(2, 14), (4, 15)],
        8 => [(4, 18), (2, 19)],
        9 => [(4, 16), (4, 17)],
        10 => [(6, 19), (2, 20)],
        11 => [(4, 22), (4, 23)],
        12 => [(4, 20), (6, 21)],
        13 => [(8, 20), (4, 21)],
        14 => [(11, 16), (5, 17)],
        15 => [(5, 24), (7, 25)],
        16 => [(15, 19), (2, 20)],
        17 => [(1, 22), (15, 23)],
        18 => [(17, 22), (1, 23)],
        19 => [(17, 21), (4, 22)],
        20 => [(15, 24), (5, 25)],
        21 => [(17, 22), (6, 23)],
        22 => [(7, 24), (16, 25)],
        23 => [(11, 24), (14, 25)],
        24 => [(11, 24), (16, 25)],
        25 => [(7, 24), (22, 25)],
        26 => [(28, 22), (6, 23)],
        27 => [(8, 23), (26, 24)],
        28 => [(4, 24), (31, 25)],
        29 => [(1, 23), (37, 24)],
        30 => [(15, 24), (25, 25)],
        31 => [(42, 24), (1, 25)],
        32 => [(10, 24), (35, 25)],
        33 => [(29, 24), (19, 25)],
        34 => [(44, 24), (7, 25)],
        35 => [(39, 24), (14, 25)],
        36 => [(46, 24), (10, 25)],
        37 => [(49, 24), (10, 25)],
        38 => [(48, 24), (14, 25)],
        39 => [(43, 24), (22, 25)],
        40 => [(34, 24), (34, 25)],
        _ => [(0, 0), (0, 0)],
    }
}

fn ecc_to_groups_h(version: u8) -> (r: [(usize, usize); 2])
    ensures
        r@[0].0 == spec_groups_h(version as int).0.0,
        r@[0].1 == spec_groups_h(version as int).0.1,
        r@[1].0 == spec_groups_h(version as int).1.0,
        r@[1].1 == spec_groups_h(version as int).1.1,
{
    match version {
        1 => [(1, 9), (0, 0)],
        2 => [(1, 16), (0, 0)],
        3 => [(2, 13), (0, 0)],
        4 => [(4, 9), (0, 0)],
        5 => [(2, 11), (2, 12)],
        6 => [(4, 15), (0, 0)],
        7 => [(4, 13), (1, 14)],
        8 => [(4, 14), (2, 15)],
        9 => [(4, 12), (4, 13)],
        10 => [(6, 15), (2, 16)],
        11 => [(3, 12), (8, 13)],
        12 => [(7, 14), (4, 15)],
        13 => [(12, 11), (4, 12)],
        14 => [(11, 12), (5, 13)],
        15 => [(11, 12), (7, 13)],
        16 => [(3, 15), (13, 16)],
        17 => [(2, 14), (17, 15)],
        18 => [(2, 14), (19, 15)],
        19 => [(9, 13), (16, 14)],
        20 => [(15, 15), (10, 16)],
        21 => [(19, 16), (6, 17)],
        22 => [(34, 13), (0, 0)],
        23 => [(16, 15), (14, 16)],
        24 => [(30, 16), (2, 17)],
        25 => [(22, 15), (13, 16)],
        26 => [(33, 16), (4, 17)],
        27 => [(12, 15), (28, 16)],
        28 => [(11, 15), (31, 16)],
        29 => [(19, 15), (26, 16)],
        30 => [(23, 15), (25, 16)],
        31 => [(23, 15), (28, 16)],
        32 => [(19, 15), (35, 16)],
        33 => [(11, 15), (46, 16)],
        34 => [(59, 16), (1, 17)],
        35 => [(22, 15), (41, 16)],
        36 => [(2, 15), (64, 16)],
        37 => [(24, 15), (46, 16)],
        38 => [(42, 15), (32, 16)],
        39 => [(10, 15), (67, 16)],
        40 => [(20, 15), (61, 16)],
        _ => [(0, 0), (0, 0)],
    }
}

/// Fetches the right array to retrieve the information on **groups**.
pub fn ecc_to_groups(quality: ECL, version: Version) -> (r: [(usize, usize); 2])
    ensures
        r@[0].0 == spec_groups(version.num(), quality).0.0,
        r@[0].1 == spec_groups(version.num(), quality).0.1,
        r@[1].0 == spec_groups(version.num(), quality).1.0,
        r@[1].1 == spec_groups(version.num(), quality).1.1,
{
    match quality {
        ECL::L => ecc_to_groups_l(version.number()),
        ECL::M => ecc_to_groups_m(version.number()),
        ECL::Q => ecc_to_groups_q(version.number()),
        ECL::H => ecc_to_groups_h(version.number()),
    }
}

pub open spec fn spec_format_information_l(mask_nb: int) -> int {
    if mask_nb == 0 {
        30660
    } else if mask_nb == 1 {
        29427
    } else if mask_nb == 2 {
        32170
    } else if mask_nb == 3 {
        30877
    } else if mask_nb == 4 {
        26159
    } else if mask_nb == 5 {
        25368
    } else if mask_nb == 6 {
        27713
    } else if mask_nb == 7 {
        26998
    } else {
        0
    }
}

pub open spec fn spec_format_information_m(mask_nb: int) -> int {
    if mask_nb == 0 {
        21522
    } else if mask_nb == 1 {
        20773
    } else if mask_nb == 2 {
        24188
    } else if mask_nb == 3 {
        23371
    } else if mask_nb == 4 {
        17913
    } else if mask_nb == 5 {
        16590
    } else if mask_nb == 6 {
        20375
    } else if mask_nb == 7 {
        19104
    } else {
        0
    }
}

pub open spec fn spec_format_information_q(mask_nb: int) -> int {
    if mask_nb == 0 {
        13663
    } else if mask_nb == 1 {
        12392
    } else if mask_nb == 2 {
        16177
    } else if mask_nb == 3 {
        14854
    } else if mask_nb == 4 {
        9396
    } else if mask_nb == 5 {
        8579
    } else if mask_nb == 6 {
        11994
    } else if mask_nb == 7 {
        11245
    } else {
        0
    }
}

pub open spec fn spec_format_information_h(mask_nb: int) -> int {
    if mask_nb == 0 {
        5769
    } else if mask_nb == 1 {
        5054
    } else if mask_nb == 2 {
        7399
    } else if mask_nb == 3 {
        6608
    } else if mask_nb == 4 {
        1890
    } else if mask_nb == 5 {
        597
    } else if mask_nb == 6 {
        3340
    } else if mask_nb == 7 {
        2107
    } else {
        0
    }
}

/// The 15-bit pre-computed format descriptor for a (level, mask pattern) pair.
pub open spec fn spec_format_information(ecl: ECL, mask_nb: int) -> int {
    match ecl {
        ECL::L => spec_format_information_l(mask_nb),
        ECL::M => spec_format_information_m(mask_nb),
        ECL::Q => spec_format_information_q(mask_nb),
        ECL::H => spec_format_information_h(mask_nb),
    }
}

/// Fetches the right array to retrieve the **format information**.
pub fn ecm_to_format_information(quality: ECL, mask_nb: usize) -> (r: u16)
    requires
        mask_nb < 8,
    ensures
        r == spec_format_information(quality, mask_nb as int),
{
    match quality {
        ECL::L => match mask_nb {
            0 => 30660,
            1 => 29427,
            2 => 32170,
            3 => 30877,
            4 => 26159,
            5 => 25368,
            6 => 27713,
            7 => 26998,
            _ => 0,
        },
        ECL::M => match mask_nb {
            0 => 21522,
            1 => 20773,
            2 => 24188,
            3 => 23371,
            4 => 17913,
            5 => 16590,
            6 => 20375,
            7 => 19104,
            _ => 0,
        },
        ECL::Q => match mask_nb {
            0 => 13663,
            1 => 12392,
            2 => 16177,
            3 => 14854,
            4 => 9396,
            5 => 8579,
            6 => 11994,
            7 => 11245,
            _ => 0,
        },
        ECL::H => match mask_nb {
            0 => 5769,
            1 => 5054,
            2 => 7399,
            3 => 6608,
            4 => 1890,
            5 => 597,
            6 => 3340,
            7 => 2107,
            _ => 0,
        },
    }
}

/// Width of the character-count indicator for a (version, mode) pair.
pub open spec fn spec_cci_bits(version: int, mode: Mode) -> int {
    match mode {
        Mode::Numeric => if version >= 27 {
            14
        } else if version >= 10 {
            12
        } else {
            10
        },
        Mode::Alphanumeric => if version >= 27 {
            13
        } else if version >= 10 {
            11
        } else {
            9
        },
        Mode::Byte => if version >= 10 {
            16
        } else {
            8
        },
    }
}

/// Returns the **number of bits** of the character-count indicator
/// according to `version` and `mode`.
pub fn cci_bits(version: Version, mode: Mode) -> (r: usize)
    ensures
        r == spec_cci_bits(version.num(), mode),
{
    let v = version.number();
    match mode {
        Mode::Numeric => if v >= 27 {
            14
        } else if v >= 10 {
            12
        } else {
            10
        },
        Mode::Alphanumeric => if v >= 27 {
            13
        } else if v >= 10 {
            11
        } else {
            9
        },
        Mode::Byte => if v >= 10 {
            16
        } else {
            8
        },
    }
}

pub open spec fn spec_ec_codewords_l(version: int) -> int {
    if version == 1 {
        7
    } else if version == 2 {
        10
    } else if version == 3 {
        15
    } else if version == 4 {
        20
    } else if version == 5 {
        26
    } else if version == 6 {
        18
    } else if version == 7 {
        20
    } else if version == 8 {
        24
    } else if version == 9 {
        30
    } else if version == 10 {
        18
    } else if version == 11 {
        20
    } else if version == 12 {
        24
    } else if version == 13 {
        26
    } else if version == 14 {
        30
    } else if version == 15 {
        22
    } else if version == 16 {
        24
    } else if version == 17 {
        28
    } else if version == 18 {
        30
    } else if version == 19 {
        28
    } else if version == 20 {
        28
    } else if version == 21 {
        28
    } else if version == 22 {
        28
    } else if version == 23 {
        30
    } else if version == 24 {
        30
    } else if version == 25 {
        26
    } else if version == 26 {
        28
    } else if version == 27 {
        30
    } else if version == 28 {
        30
    } else if version == 29 {
        30
    } else if version == 30 {
        30
    } else if version == 31 {
        30
    } else if version == 32 {
        30
    } else if version == 33 {
        30
    } else if version == 34 {
        30
    } else if version == 35 {
        30
    } else if version == 36 {
        30
    } else if version == 37 {
        30
    } else if version == 38 {
        30
    } else if version == 39 {
        30
    } else if version == 40 {
        30
    } else {
        0
    }
}

pub open spec fn spec_ec_codewords_m(version: int) -> int {
    if version == 1 {
        10
    } else if version == 2 {
        16
    } else if version == 3 {
        26
    } else if version == 4 {
        18
    } else if version == 5 {
        24
    } else if version == 6 {
        16
    } else if version == 7 {
        18
    } else if version == 8 {
        22
    } else if version == 9 {
        22
    } else if version == 10 {
        26
    } else if version == 11 {
        30
    } else if version == 12 {
        22
    } else if version == 13 {
        22
    } else if version == 14 {
        24
    } else if version == 15 {
        24
    } else if version == 16 {
        28
    } else if version == 17 {
        28
    } else if version == 18 {
        26
    } else if version == 19 {
        26
    } else if version == 20 {
        26
    } else if version == 21 {
        26
    } else if version == 22 {
        28
    } else if version == 23 {
        28
    } else if version == 24 {
        28
    } else if version == 25 {
        28
    } else if version == 26 {
        28
    } else if version == 27 {
        28
    } else if version == 28 {
        28
    } else if version == 29 {
        28
    } else if version == 30 {
        28
    } else if version == 31 {
        28
    } else if version == 32 {
        28
    } else if version == 33 {
        28
    } else if version == 34 {
        28
    } else if version == 35 {
        28
    } else if version == 36 {
        28
    } else if version == 37 {
        28
    } else if version == 38 {
        28
    } else if version == 39 {
        28
    } else if version == 40 {
        28
    } else {
        0
    }
}

pub open spec fn spec_ec_codewords_q(version: int) -> int {
    if version == 1 {
        13
    } else if version == 2 {
        22
    } else if version == 3 {
        18
    } else if version == 4 {
        26
    } else if version == 5 {
        18
    } else if version == 6 {
        24
    } else if version == 7 {
        18
    } else if version == 8 {
        22
    } else if version == 9 {
        20
    } else if version == 10 {
        24
    } else if version == 11 {
        28
    } else if version == 12 {
        26
    } else if version == 13 {
        24
    } else if version == 14 {
        20
    } else if version == 15 {
        30
    } else if version == 16 {
        24
    } else if version == 17 {
        28
    } else if version == 18 {
        28
    } else if version == 19 {
        26
    } else if version == 20 {
        30
    } else if version == 21 {
        28
    } else if version == 22 {
        30
    } else if version == 23 {
        30
    } else if version == 24 {
        30
    } else if version == 25 {
        30
    } else if version == 26 {
        28
    } else if version == 27 {
        30
    } else if version == 28 {
        30
    } else if version == 29 {
        30
    } else if version == 30 {
        30
    } else if version == 31 {
        30
    } else if version == 32 {
        30
    } else if version == 33 {
        30
    } else if version == 34 {
        30
    } else if version == 35 {
        30
    } else if version == 36 {
        30
    } else if version == 37 {
        30
    } else if version == 38 {
        30
    } else if version == 39 {
        30
    } else if version == 40 {
        30
    } else {
        0
    }
}

pub open spec fn spec_ec_codewords_h(version: int) -> int {
    if version == 1 {
        17
    } else if version == 2 {
        28
    } else if version == 3 {
        22
    } else if version == 4 {
        16
    } else if version == 5 {
        22
    } else if version == 6 {
        28
    } else if version == 7 {
        26
    } else if version == 8 {
        26
    } else if version == 9 {
        24
    } else if version == 10 {
        28
    } else if version == 11 {
        24
    } else if version == 12 {
        28
    } else if version == 13 {
        22
    } else if version == 14 {
        24
    } else if version == 15 {
        24
    } else if version == 16 {
        30
    } else if version == 17 {
        28
    } else if version == 18 {
        28
    } else if version == 19 {
        26
    } else if version == 20 {
        28
    } else if version == 21 {
        30
    } else if version == 22 {
        24
    } else if version == 23 {
        30
    } else if version == 24 {
        30
    } else if version == 25 {
        30
    } else if version == 26 {
        30
    } else if version == 27 {
        30
    } else if version == 28 {
        30
    } else if version == 29 {
        30
    } else if version == 30 {
        30
    } else if version == 31 {
        30
    } else if version == 32 {
        30
    } else if version == 33 {
        30
    } else if version == 34 {
        30
    } else if version == 35 {
        30
    } else if version == 36 {
        30
    } else if version == 37 {
        30
    } else if version == 38 {
        30
    } else if version == 39 {
        30
    } else if version == 40 {
        30
    } else {
        0
    }
}

/// Error-correction codewords per block for a (version, level) pair.
pub open spec fn spec_ec_codewords(version: int, ecl: ECL) -> int {
    match ecl {
        ECL::L => spec_ec_codewords_l(version),
        ECL::M => spec_ec_codewords_m(version),
        ECL::Q => spec_ec_codewords_q(version),
        ECL::H => spec_ec_codewords_h(version),
    }
}

fn ec_codewords_l(version: u8) -> (r: usize)
    ensures
        r == spec_ec_codewords_l(version as int),
{
    match version {
        1 => 7,
        2 => 10,
        3 => 15,
        4 => 20,
        5 => 26,
        6 => 18,
        7 => 20,
        8 => 24,
        9 => 30,
        10 => 18,
        11 => 20,
        12 => 24,
        13 => 26,
        14 => 30,
        15 => 22,
        16 => 24,
        17 => 28,
        18 => 30,
        19 => 28,
        20 => 28,
        21 => 28,
        22 => 28,
        23 => 30,
        24 => 30,
        25 => 26,
        26 => 28,
        27 => 30,
        28 => 30,
        29 => 30,
        30 => 30,
        31 => 30,
        32 => 30,
        33 => 30,
        34 => 30,
        35 => 30,
        36 => 30,
        37 => 30,
        38 => 30,
        39 => 30,
        40 => 30,
        _ => 0,
    }
}

fn ec_codewords_m(version: u8) -> (r: usize)
    ensures
        r == spec_ec_codewords_m(version as int),
{
    match version {
        1 => 10,
        2 => 16,
        3 => 26,
        4 => 18,
        5 => 24,
        6 => 16,
        7 => 18,
        8 => 22,
        9 => 22,
        10 => 26,
        11 => 30,
        12 => 22,
        13 => 22,
        14 => 24,
        15 => 24,
        16 => 28,
        17 => 28,
        18 => 26,
        19 => 26,
        20 => 26,
        21 => 26,
        22 => 28,
        23 => 28,
        24 => 28,
        25 => 28,
        26 => 28,
        27 => 28,
        28 => 28,
        29 => 28,
        30 => 28,
        31 => 28,
        32 => 28,
        33 => 28,
        34 => 28,
        35 => 28,
        36 => 28,
        37 => 28,
        38 => 28,
        39 => 28,
        40 => 28,
        _ => 0,
    }
}

fn ec_codewords_q(version: u8) -> (r: usize)
    ensures
        r == spec_ec_codewords_q(version as int),
{
    match version {
        1 => 13,
        2 => 22,
        3 => 18,
        4 => 26,
        5 => 18,
        6 => 24,
        7 => 18,
        8 => 22,
        9 => 20,
        10 => 24,
        11 => 28,
        12 => 26,
        13 => 24,
        14 => 20,
        15 => 30,
        16 => 24,
        17 => 28,
        18 => 28,
        19 => 26,
        20 => 30,
        21 => 28,
        22 => 30,
        23 => 30,
        24 => 30,
        25 => 30,
        26 => 28,
        27 => 30,
        28 => 30,
        29 => 30,
        30 => 30,
        31 => 30,
        32 => 30,
        33 => 30,
        34 => 30,
        35 => 30,
        36 => 30,
        37 => 30,
        38 => 30,
        39 => 30,
        40 => 30,
        _ => 0,
    }
}

fn ec_codewords_h(version: u8) -> (r: usize)
    ensures
        r == spec_ec_codewords_h(version as int),
{
    match version {
        1 => 17,
        2 => 28,
        3 => 22,
        4 => 16,
        5 => 22,
        6 => 28,
        7 => 26,
        8 => 26,
        9 => 24,
        10 => 28,
        11 => 24,
        12 => 28,
        13 => 22,
        14 => 24,
        15 => 24,
        16 => 30,
        17 => 28,
        18 => 28,
        19 => 26,
        20 => 28,
        21 => 30,
        22 => 24,
        23 => 30,
        24 => 30,
        25 => 30,
        26 => 30,
        27 => 30,
        28 => 30,
        29 => 30,
        30 => 30,
        31 => 30,
        32 => 30,
        33 => 30,
        34 => 30,
        35 => 30,
        36 => 30,
        37 => 30,
        38 => 30,
        39 => 30,
        40 => 30,
        _ => 0,
    }
}

fn ec_codewords(version: Version, ecl: ECL) -> (r: usize)
    ensures
        r == spec_ec_codewords(version.num(), ecl),
{
    match ecl {
        ECL::L => ec_codewords_l(version.number()),
        ECL::M => ec_codewords_m(version.number()),
        ECL::Q => ec_codewords_q(version.number()),
        ECL::H => ec_codewords_h(version.number()),
    }
}

/// Generator-polynomial coefficients (log domain; the leading unity term
/// is the 0 in front) for each error-correction codeword count per block.
pub open spec fn spec_poly_of_ec(ec: int) -> Seq<u8> {
    if ec == 7 {
        seq![0u8, 87, 229, 146, 149, 238, 102, 21]
    } else if ec == 10 {
        seq![0u8, 251, 67, 46, 61, 118, 70, 64, 94, 32, 45]
    } else if ec == 13 {
        seq![0u8, 74, 152, 176, 100, 86, 100, 106, 104, 130, 218, 206, 140, 78]
    } else if ec == 15 {
        seq![0u8, 8, 183, 61, 91, 202, 37, 51, 58, 58, 237, 140, 124, 5, 99, 105]
    } else if ec == 16 {
        seq![0u8, 120, 104, 107, 109, 102, 161, 76, 3, 91, 191, 147, 169, 182, 194, 225, 120]
    } else if ec == 17 {
        seq![0u8, 43, 139, 206, 78, 43, 239, 123, 206, 214, 147, 24, 99, 150, 39, 243, 163, 136]
    } else if ec == 18 {
        seq![0u8, 215, 234, 158, 94, 184, 97, 118, 170, 79, 187, 152, 148, 252, 179, 5, 98, 96, 153]
    } else if ec == 20 {
        seq![0u8, 17, 60, 79, 50, 61, 163, 26, 187, 202, 180, 221, 225, 83, 239, 156, 164, 212, 212, 188, 190]
    } else if ec == 22 {
        seq![0u8, 210, 171, 247, 242, 93, 230, 14, 109, 221, 53, 200, 74, 8, 172, 98, 80, 219, 134, 160, 105, 165, 231]
    } else if ec == 24 {
        seq![0u8, 229, 121, 135, 48, 211, 117, 251, 126, 159, 180, 169, 152, 192, 226, 228, 218, 111, 0, 117, 232, 87, 96, 227, 21]
    } else if ec == 26 {
        seq![0u8, 173, 125, 158, 2, 103, 182, 118, 17, 145, 201, 111, 28, 165, 53, 161, 21, 245, 142, 13, 102, 48, 227, 153, 145, 218, 70]
    } else if ec == 28 {
        seq![0u8, 168, 223, 200, 104, 224, 234, 108, 180, 110, 190, 195, 147, 205, 27, 232, 201, 21, 43, 245, 87, 42, 195, 212, 119, 242, 37, 9, 123]
    } else if ec == 30 {
        seq![0u8, 41, 173, 145, 152, 216, 31, 179, 182, 50, 48, 110, 86, 239, 96, 222, 125, 42, 173, 226, 193, 224, 130, 156, 37, 251, 216, 238, 40, 192, 180]
    } else {
        Seq::empty()
    }
}

/// Generator-polynomial coefficients for a (version, level) pair.
pub open spec fn spec_polynomial(version: int, ecl: ECL) -> Seq<u8> {
    spec_poly_of_ec(spec_ec_codewords(version, ecl))
}

/// Returns the required **dividing polynomial** according to `version` and `ecl`.
pub fn get_polynomial(version: Version, ecl: ECL) -> (r: Vec<u8>)
    ensures
        r@ == spec_polynomial(version.num(), ecl),
{
    let ec = ec_codewords(version, ecl);
    let r: Vec<u8> = match ec {
        7 => vec![0u8, 87, 229, 146, 149, 238, 102, 21],
        10 => vec![0u8, 251, 67, 46, 61, 118, 70, 64, 94, 32, 45],
        13 => vec![0u8, 74, 152, 176, 100, 86, 100, 106, 104, 130, 218, 206, 140, 78],
        15 => vec![0u8, 8, 183, 61, 91, 202, 37, 51, 58, 58, 237, 140, 124, 5, 99, 105],
        16 => vec![0u8, 120, 104, 107, 109, 102, 161, 76, 3, 91, 191, 147, 169, 182, 194, 225, 120],
        17 => vec![0u8, 43, 139, 206, 78, 43, 239, 123, 206, 214, 147, 24, 99, 150, 39, 243, 163, 136],
        18 => vec![0u8, 215, 234, 158, 94, 184, 97, 118, 170, 79, 187, 152, 148, 252, 179, 5, 98, 96, 153],
        20 => vec![0u8, 17, 60, 79, 50, 61, 163, 26, 187, 202, 180, 221, 225, 83, 239, 156, 164, 212, 212, 188, 190],
        22 => vec![0u8, 210, 171, 247, 242, 93, 230, 14, 109, 221, 53, 200, 74, 8, 172, 98, 80, 219, 134, 160, 105, 165, 231],
        24 => vec![0u8, 229, 121, 135, 48, 211, 117, 251, 126, 159, 180, 169, 152, 192, 226, 228, 218, 111, 0, 117, 232, 87, 96, 227, 21],
        26 => vec![0u8, 173, 125, 158, 2, 103, 182, 118, 17, 145, 201, 111, 28, 165, 53, 161, 21, 245, 142, 13, 102, 48, 227, 153, 145, 218, 70],
        28 => vec![0u8, 168, 223, 200, 104, 224, 234, 108, 180, 110, 190, 195, 147, 205, 27, 232, 201, 21, 43, 245, 87, 42, 195, 212, 119, 242, 37, 9, 123],
        30 => vec![0u8, 41, 173, 145, 152, 216, 31, 179, 182, 50, 48, 110, 86, 239, 96, 222, 125, 42, 173, 226, 193, 224, 130, 156, 37, 251, 216, 238, 40, 192, 180],
        _ => Vec::new(),
    };
    proof {
        assert(r@ =~= spec_polynomial(version.num(), ecl));
    }
    r
}

/// Total codewords (data plus error correction) of a version, a function
/// of the version alone.
pub open spec fn spec_total_codewords(version: int) -> int {
    if version == 1 {
        26
    } else if version == 2 {
        44
    } else if version == 3 {
        70
    } else if version == 4 {
        100
    } else if version == 5 {
        134
    } else if version == 6 {
        172
    } else if version == 7 {
        196
    } else if version == 8 {
        242
    } else if version == 9 {
        292
    } else if version == 10 {
        346
    } else if version == 11 {
        404
    } else if version == 12 {
        466
    } else if version == 13 {
        532
    } else if version == 14 {
        581
    } else if version == 15 {
        655
    } else if version == 16 {
        733
    } else if version == 17 {
        815
    } else if version == 18 {
        901
    } else if version == 19 {
        991
    } else if version == 20 {
        1085
    } else if version == 21 {
        1156
    } else if version == 22 {
        1258
    } else if version == 23 {
        1364
    } else if version == 24 {
        1474
    } else if version == 25 {
        1588
    } else if version == 26 {
        1706
    } else if version == 27 {
        1828
    } else if version == 28 {
        1921
    } else if version == 29 {
        2051
    } else if version == 30 {
        2185
    } else if version == 31 {
        2323
    } else if version == 32 {
        2465
    } else if version == 33 {
        2611
    } else if version == 34 {
        2761
    } else if version == 35 {
        2876
    } else if version == 36 {
        3034
    } else if version == 37 {
        3196
    } else if version == 38 {
        3362
    } else if version == 39 {
        3532
    } else if version == 40 {
        3706
    } else {
        0
    }
}

/// Mask balance penalty: the score for a dark-module percentage metric,
/// a coarse step function that grows away from the balanced band and
/// saturates at 255 from 100 on.
pub open spec fn spec_percent_score(percent: int) -> int {
    if percent >= 100 {
        255
    } else if percent < 45 {
        90 - 10 * (percent / 5)
    } else if percent <= 54 {
        0
    } else {
        10 * ((percent - 50) / 5)
    }
}

/// Returns the score for the **light/dark module ratio** metric.
pub fn percent_score(percent: u8) -> (r: u32)
    ensures
        r == spec_percent_score(percent as int),
{
    if percent >= 100 {
        255
    } else if percent < 45 {
        90 - 10 * ((percent as u32) / 5)
    } else if percent <= 54 {
        0
    } else {
        10 * (((percent - 50) as u32) / 5)
    }
}

/// Data-codeword counts never exceed the version-40 level-L count, and
/// within the low version bands never exceed that band's largest count.
pub proof fn lemma_data_codewords_bound(version: int, ecl: ECL)
    ensures
        0 <= spec_data_codewords(version, ecl) <= 2956,
        version <= 9 ==> spec_data_codewords(version, ecl) <= 232,
        version <= 26 ==> spec_data_codewords(version, ecl) <= 1370,
{
}

/// The consistency conditions that every structural-table row obeys.
pub open spec fn table_consistent_at(version: int, ecl: ECL) -> bool {
    &&& spec_groups(version, ecl).0.0 * spec_groups(version, ecl).0.1
        + spec_groups(version, ecl).1.0 * spec_groups(version, ecl).1.1
        == spec_data_codewords(version, ecl)
    &&& spec_polynomial(version, ecl).len() == spec_ec_codewords(version, ecl) + 1
    &&& spec_data_codewords(version, ecl)
        + (spec_groups(version, ecl).0.0 + spec_groups(version, ecl).1.0)
            * spec_ec_codewords(version, ecl)
        == spec_total_codewords(version)
}

/// The structural tables are mutually consistent: for every (version,
/// level) pair the block groups account for exactly the declared data
/// codewords; the generator polynomial has one coefficient more than the
/// error-correction codewords of one block; and data codewords plus all
/// blocks' error-correction codewords give the version's total codeword
/// count, the same at every level.
pub proof fn lemma_table_consistency(version: int, ecl: ECL)
    requires
        1 <= version <= 40,
    ensures
        spec_groups(version, ecl).0.0 * spec_groups(version, ecl).0.1
            + spec_groups(version, ecl).1.0 * spec_groups(version, ecl).1.1
            == spec_data_codewords(version, ecl),
        spec_polynomial(version, ecl).len() == spec_ec_codewords(version, ecl) + 1,
        spec_data_codewords(version, ecl)
            + (spec_groups(version, ecl).0.0 + spec_groups(version, ecl).1.0)
                * spec_ec_codewords(version, ecl)
            == spec_total_codewords(version),
{
    match ecl {
        ECL::L => lemma_table_consistency_l(version),
        ECL::M => lemma_table_consistency_m(version),
        ECL::Q => lemma_table_consistency_q(version),
        ECL::H => lemma_table_consistency_h(version),
    }
}

proof fn lemma_table_consistency_l_1(version: int)
    requires
        version == 1,
    ensures
        table_consistent_at(version, ECL::L),
{
    let g = spec_groups(1, ECL::L);
    assert(g == ((1int, 19int), (0int, 0int)));
    assert(1int * 19int == 19int && 0int * 0int == 0int);
    assert(1int * 7int == 7int);
    assert(g.0.0 * g.0.1 + g.1.0 * g.1.1 == 19);
    assert((g.0.0 + g.1.0) * spec_ec_codewords(1, ECL::L) == 7);
    assert(spec_data_codewords(1, ECL::L) == 19);
    assert(spec_ec_codewords(1, ECL::L) == 7);
    assert(spec_poly_of_ec(7).len() == 8);
    assert(spec_total_codewords(1) == 26);
    assert(table_consistent_at(1, ECL::L));
}

proof fn lemma_table_consistency_l_2(version: int)
    requires
        version == 2,
    ensures
        table_consistent_at(version, ECL::L),
{
    let g = spec_groups(2, ECL::L);
    assert(g == ((1int, 34int), (0int, 0int)));
    assert(1int * 34int == 34int && 0int * 0int == 0int);
    assert(1int * 10int == 10int);
    assert(g.0.0 * g.0.1 + g.1.0 * g.1.1 == 34);
    assert((g.0.0 + g.1.0) * spec_ec_codewords(2, ECL::L) == 10);
    assert(spec_data_codewords(2, ECL::L) == 34);
    assert(spec_ec_codewords(2, ECL::L) == 10);
    assert(spec_poly_of_ec(10).len() == 11);
    assert(spec_total_codewords(2) == 44);
    assert(table_consistent_at(2, ECL::L));
}

proof fn lemma_table_consistency_l_3(version: int)
    requires
        version == 3,
    ensures
        table_consistent_at(version, ECL::L),
{
    let g = spec_groups(3, ECL::L);
    assert(g == ((1int, 55int), (0int, 0int)));
    assert(1int * 55int == 55int && 0int * 0int == 0int);
    assert(1int * 15int == 15int);
    assert(g.0.0 * g.0.1 + g.1.0 * g.1.1 == 55);
    assert((g.0.0 + g.1.0) * spec_ec_codewords(3, ECL::L) == 15);
    assert(spec_data_codewords(3, ECL::L) == 55);
    assert(spec_ec_codewords(3, ECL::L) == 15);
    assert(spec_poly_of_ec(15).len() == 16);
    assert(spec_total_codewords(3) == 70);
    assert(table_consistent_at(3, ECL::L));
}

proof fn lemma_table_consistency_l_4(version: int)
    requires
        version == 4,
    ensures
        table_consistent_at(version, ECL::L),
{
    let g = spec_groups(4, ECL::L);
    assert(g == ((1int, 80int), (0int, 0int)));
    assert(1int * 80int == 80int && 0int * 0int == 0int);
    assert(1int * 20int == 20int);
    assert(g.0.0 * g.0.1 + g.1.0 * g.1.1 == 80);
    assert((g.0.0 + g.1.0) * spec_ec_codewords(4, ECL::L) == 20);
    assert(spec_data_codewords(4, ECL::L) == 80);
    assert(spec_ec_codewords(4, ECL::L) == 20);
    assert(spec_poly_of_ec(20).len() == 21);
    assert(spec_total_codewords(4) == 100);
    assert(table_consistent_at(4, ECL::L));
}

proof fn lemma_table_consistency_l_5(version: int)
    requires
        version == 5,
    ensures
        table_consistent_at(version, ECL::L),
{
    let g = spec_groups(5, ECL::L);
    assert(g == ((1int, 108int), (0int, 0int)));
    assert(1int * 108int == 108int && 0int * 0int == 0int);
    assert(1int * 26int == 26int);
    assert(g.0.0 * g.0.1 + g.1.0 * g.1.1 == 108);
    assert((g.0.0 + g.1.0) * spec_ec_codewords(5, ECL::L) == 26);
    assert(spec_data_codewords(5, ECL::L) == 108);
    assert(spec_ec_codewords(5, ECL::L) == 26);
    assert(spec_poly_of_ec(26).len() == 27);
    assert(spec_total_codewords(5) == 134);
    assert(table_consistent_at(5, ECL::L));
}

proof fn lemma_table_consistency_l_6(version: int)
    requires
        version == 6,
    ensures
        table_consistent_at(version, ECL::L),
{
    let g = spec_groups(6, ECL::L);
    assert(g == ((2int, 68int), (0int, 0int)));
    assert(2int * 68int == 136int && 0int * 0int == 0int);
    assert(2int * 18int == 36int);
    assert(g.0.0 * g.0.1 + g.1.0 * g.1.1 == 136);
    assert((g.0.0 + g.1.0) * spec_ec_codewords(6, ECL::L) == 36);
    assert(spec_data_codewords(6, ECL::L) == 136);
    assert(spec_ec_codewords(6, ECL::L) == 18);
    assert(spec_poly_of_ec(18).len() == 19);
    assert(spec_total_codewords(6) == 172);
    assert(table_consistent_at(6, ECL::L));
}

proof fn lemma_table_consistency_l_7(version: int)
    requires
        version == 7,
    ensures
        table_consistent_at(version, ECL::L),
{
    let g = spec_groups(7, ECL::L);
    assert(g == ((2int, 78int), (0int, 0int)));
    assert(2int * 78int == 156int && 0int * 0int == 0int);
    assert(2int * 20int == 40int);
    assert(g.0.0 * g.0.1 + g.1.0 * g.1.1 == 156);
    assert((g.0.0 + g.1.0) * spec_ec_codewords(7, ECL::L) == 40);
    assert(spec_data_codewords(7, ECL::L) == 156);
    assert(spec_ec_codewords(7, ECL::L) == 20);
    assert(spec_poly_of_ec(20).len() == 21);
    assert(spec_total_codewords(7) == 196);
    assert(table_consistent_at(7, ECL::L));
}

proof fn lemma_table_consistency_l_8(version: int)
    requires
        version == 8,
    ensures
        table_consistent_at(version, ECL::L),
{
    let g = spec_groups(8, ECL::L);
    assert(g == ((2int, 97int), (0int, 0int)));
    assert(2int * 97int == 194int && 0int * 0int == 0int);
    assert(2int * 24int == 48int);
    assert(g.0.0 * g.0.1 + g.1.0 * g.1.1 == 194);
    assert((g.0.0 + g.1.0) * spec_ec_codewords(8, ECL::L) == 48);
    assert(spec_data_codewords(8, ECL::L) == 194);
    assert(spec_ec_codewords(8, ECL::L) == 24);
    assert(spec_poly_of_ec(24).len() == 25);
    assert(spec_total_codewords(8) == 242);
    assert(table_consistent_at(8, ECL::L));
}

proof fn lemma_table_consistency_l_9(version: int)
    requires
        version == 9,
    ensures
        table_consistent_at(version, ECL::L),
{
    let g = spec_groups(9, ECL::L);
    assert(g == ((2int, 116int), (0int, 0int)));
    assert(2int * 116int == 232int && 0int * 0int == 0int);
    assert(2int * 30int == 60int);
    assert(g.0.0 * g.0.1 + g.1.0 * g.1.1 == 232);
    assert((g.0.0 + g.1.0) * spec_ec_codewords(9, ECL::L) == 60);
    assert(spec_data_codewords(9, ECL::L) == 232);
    assert(spec_ec_codewords(9, ECL::L) == 30);
    assert(spec_poly_of_ec(30).len() == 31);
    assert(spec_total_codewords(9) == 292);
    assert(table_consistent_at(9, ECL::L));
}

proof fn lemma_table_consistency_l_10(version: int)
    requires
        version == 10,
    ensures
        table_consistent_at(version, ECL::L),
{
    let g = spec_groups(10, ECL::L);
    assert(g == ((2int, 68int), (2int, 69int)));
    assert(2int * 68int == 136int && 2int * 69int == 138int);
    assert(4int * 18int == 72int);
    assert(g.0.0 * g.0.1 + g.1.0 * g.1.1 == 274);
    assert((g.0.0 + g.1.0) * spec_ec_codewords(10, ECL::L) == 72);
    assert(spec_data_codewords(10, ECL::L) == 274);
    assert(spec_ec_codewords(10, ECL::L) == 18);
    assert(spec_poly_of_ec(18).len() == 19);
    assert(spec_total_codewords(10) == 346);
    assert(table_consistent_at(10, ECL::L));
}

proof fn lemma_table_consistency_l_11(version: int)
    requires
        version == 11,
    ensures
        table_consistent_at(version, ECL::L),
{
    let g = spec_groups(11, ECL::L);
    assert(g == ((4int, 81int), (0int, 0int)));
    assert(4int * 81int == 324int && 0int * 0int == 0int);
    assert(4int * 20int == 80int);
    assert(g.0.0 * g.0.1 + g.1.0 * g.1.1 == 324);
    assert((g.0.0 + g.1.0) * spec_ec_codewords(11, ECL::L) == 80);
    assert(spec_data_codewords(11, ECL::L) == 324);
    assert(spec_ec_codewords(11, ECL::L) == 20);
    assert(spec_poly_of_ec(20).len() == 21);
    assert(spec_total_codewords(11) == 404);
    assert(table_consistent_at(11, ECL::L));
}

proof fn lemma_table_consistency_l_12(version: int)
    requires
        version == 12,
    ensures
        table_consistent_at(version, ECL::L),
{
    let g = spec_groups(12, ECL::L);
    assert(g == ((2int, 92int), (2int, 93int)));
    assert(2int * 92int == 184int && 2int * 93int == 186int);
    assert(4int * 24int == 96int);
    assert(g.0.0 * g.0.1 + g.1.0 * g.1.1 == 370);
    assert((g.0.0 + g.1.0) * spec_ec_codewords(12, ECL::L) == 96);
    assert(spec_data_codewords(12, ECL::L) == 370);
    assert(spec_ec_codewords(12, ECL::L) == 24);
    assert(spec_poly_of_ec(24).len() == 25);
    assert(spec_total_codewords(12) == 466);
    assert(table_consistent_at(12, ECL::L));
}

proof fn lemma_table_consistency_l_13(version: int)
    requires
        version == 13,
    ensures
        table_consistent_at(version, ECL::L),
{
    let g = spec_groups(13, ECL::L);
    assert(g == ((4int, 107int), (0int, 0int)));
    assert(4int * 107int == 428int && 0int * 0int == 0int);
    assert(4int * 26int == 104int);
    assert(g.0.0 * g.0.1 + g.1.0 * g.1.1 == 428);
    assert((g.0.0 + g.1.0) * spec_ec_codewords(13, ECL::L) == 104);
    assert(spec_data_codewords(13, ECL::L) == 428);
    assert(spec_ec_codewords(13, ECL::L) == 26);
    assert(spec_poly_of_ec(26).len() == 27);
    assert(spec_total_codewords(13) == 532);
    assert(table_consistent_at(13, ECL::L));
}

proof fn lemma_table_consistency_l_14(version: int)
    requires
        version == 14,
    ensures
        table_consistent_at(version, ECL::L),
{
    let g = spec_groups(14, ECL::L);
    assert(g == ((3int, 115int), (1int, 116int)));
    assert(3int * 115int == 345int && 1int * 116int == 116int);
    assert(4int * 30int == 120int);
    assert(g.0.0 * g.0.1 + g.1.0 * g.1.1 == 461);
    assert((g.0.0 + g.1.0) * spec_ec_codewords(14, ECL::L) == 120);
    assert(spec_data_codewords(14, ECL::L) == 461);
    assert(spec_ec_codewords(14, ECL::L) == 30);
    assert(spec_poly_of_ec(30).len() == 31);
    assert(spec_total_codewords(14) == 581);
    assert(table_consistent_at(14, ECL::L));
}

proof fn lemma_table_consistency_l_15(version: int)
    requires
        version == 15,
    ensures
        table_consistent_at(version, ECL::L),
{
    let g = spec_groups(15, ECL::L);
    assert(g == ((5int, 87int), (1int, 88int)));
    assert(5int * 87int == 435int && 1int * 88int == 88int);
    assert(6int * 22int == 132int);
    assert(g.0.0 * g.0.1 + g.1.0 * g.1.1 == 523);
    assert((g.0.0 + g.1.0) * spec_ec_codewords(15, ECL::L) == 132);
    assert(spec_data_codewords(15, ECL::L) == 523);
    assert(spec_ec_codewords(15, ECL::L) == 22);
    assert(spec_poly_of_ec(22).len() == 23);
    assert(spec_total_codewords(15) == 655);
    assert(table_consistent_at(15, ECL::L));
}

proof fn lemma_table_consistency_l_16(version: int)
    requires
        version == 16,
    ensures
        table_consistent_at(version, ECL::L),
{
    let g = spec_groups(16, ECL::L);
    assert(g == ((5int, 98int), (1int, 99int)));
    assert(5int * 98int == 490int && 1int * 99int == 99int);
    assert(6int * 24int == 144int);
    assert(g.0.0 * g.0.1 + g.1.0 * g.1.1 == 589);
    assert((g.0.0 + g.1.0) * spec_ec_codewords(16, ECL::L) == 144);
    assert(spec_data_codewords(16, ECL::L) == 589);
    assert(spec_ec_codewords(16, ECL::L) == 24);
    assert(spec_poly_of_ec(24).len() == 25);
    assert(spec_total_codewords(16) == 733);
    assert(table_consistent_at(16, ECL::L));
}

proof fn lemma_table_consistency_l_17(version: int)
    requires
        version == 17,
    ensures
        table_consistent_at(version, ECL::L),
{
    let g = spec_groups(17, ECL::L);
    assert(g == ((1int, 107int), (5int, 108int)));
    assert(1int * 107int == 107int && 5int * 108int == 540int);
    assert(6int * 28int == 168int);
    assert(g.0.0 * g.0.1 + g.1.0 * g.1.1 == 647);
    assert((g.0.0 + g.1.0) * spec_ec_codewords(17, ECL::L) == 168);
    assert(spec_data_codewords(17, ECL::L) == 647);
    assert(spec_ec_codewords(17, ECL::L) == 28);
    assert(spec_poly_of_ec(28).len() == 29);
    assert(spec_total_codewords(17) == 815);
    assert(table_consistent_at(17, ECL::L));
}

proof fn lemma_table_consistency_l_18(version: int)
    requires
        version == 18,
    ensures
        table_consistent_at(version, ECL::L),
{
    let g = spec_groups(18, ECL::L);
    assert(g == ((5int, 120int), (1int, 121int)));
    assert(5int * 120int == 600int && 1int * 121int == 121int);
    assert(6int * 30int == 180int);
    assert(g.0.0 * g.0.1 + g.1.0 * g.1.1 == 721);
    assert((g.0.0 + g.1.0) * spec_ec_codewords(18, ECL::L) == 180);
    assert(spec_data_codewords(18, ECL::L) == 721);
    assert(spec_ec_codewords(18, ECL::L) == 30);
    assert(spec_poly_of_ec(30).len() == 31);
    assert(spec_total_codewords(18) == 901);
    assert(table_consistent_at(18, ECL::L));
}

proof fn lemma_table_consistency_l_19(version: int)
    requires
        version == 19,
    ensures
        table_consistent_at(version, ECL::L),
{
    let g = spec_groups(19, ECL::L);
    assert(g == ((3int, 113int), (4int, 114int)));
    assert(3int * 113int == 339int && 4int * 114int == 456int);
    assert(7int * 28int == 196int);
    assert(g.0.0 * g.0.1 + g.1.0 * g.1.1 == 795);
    assert((g.0.0 + g.1.0) * spec_ec_codewords(19, ECL::L) == 196);
    assert(spec_data_codewords(19, ECL::L) == 795);
    assert(spec_ec_codewords(19, ECL::L) == 28);
    assert(spec_poly_of_ec(28).len() == 29);
    assert(spec_total_codewords(19) == 991);
    assert(table_consistent_at(19, ECL::L));
}

proof fn lemma_table_consistency_l_20(version: int)
    requires
        version == 20,
    ensures
        table_consistent_at(version, ECL::L),
{
    let g = spec_groups(20, ECL::L);
    assert(g == ((3int, 107int), (5int, 108int)));
    assert(3int * 107int == 321int && 5int * 108int == 540int);
    assert(8int * 28int == 224int);
    assert(g.0.0 * g.0.1 + g.1.0 * g.1.1 == 861);
    assert((g.0.0 + g.1.0) * spec_ec_codewords(20, ECL::L) == 224);
    assert(spec_data_codewords(20, ECL::L) == 861);
    assert(spec_ec_codewords(20, ECL::L) == 28);
    assert(spec_poly_of_ec(28).len() == 29);
    assert(spec_total_codewords(20) == 1085);
    assert(table_consistent_at(20, ECL::L));
}

proof fn lemma_table_consistency_l_21(version: int)
    requires
        version == 21,
    ensures
        table_consistent_at(version, ECL::L),
{
    let g = spec_groups(21, ECL::L);
    assert(g == ((4int, 116int), (4int, 117int)));
    assert(4int * 116int == 464int && 4int * 117int == 468int);
    assert(8int * 28int == 224int);
    assert(g.0.0 * g.0.1 + g.1.0 * g.1.1 == 932);
    assert((g.0.0 + g.1.0) * spec_ec_codewords(21, ECL::L) == 224);
    assert(spec_data_codewords(21, ECL::L) == 932);
    assert(spec_ec_codewords(21, ECL::L) == 28);
    assert(spec_poly_of_ec(28).len() == 29);
    assert(spec_total_codewords(21) == 1156);
    assert(table_consistent_at(21, ECL::L));
}

proof fn lemma_table_consistency_l_22(version: int)
    requires
        version == 22,
    ensures
        table_consistent_at(version, ECL::L),
{
    let g = spec_groups(22, ECL::L);
    assert(g == ((2int, 111int), (7int, 112int)));
    assert(2int * 111int == 222int && 7int * 112int == 784int);
    assert(9int * 28int == 252int);
    assert(g.0.0 * g.0.1 + g.1.0 * g.1.1 == 1006);
    assert((g.0.0 + g.1.0) * spec_ec_codewords(22, ECL::L) == 252);
    assert(spec_data_codewords(22, ECL::L) == 1006);
    assert(spec_ec_codewords(22, ECL::L) == 28);
    assert(spec_poly_of_ec(28).len() == 29);
    assert(spec_total_codewords(22) == 1258);
    assert(table_consistent_at(22, ECL::L));
}

proof fn lemma_table_consistency_l_23(version: int)
    requires
        version == 23,
    ensures
        table_consistent_at(version, ECL::L),
{
    let g = spec_groups(23, ECL::L);
    assert(g == ((4int, 121int), (5int, 122int)));
    assert(4int * 121int == 484int && 5int * 122int == 610int);
    assert(9int * 30int == 270int);
    assert(g.0.0 * g.0.1 + g.1.0 * g.1.1 == 1094);
    assert((g.0.0 + g.1.0) * spec_ec_codewords(23, ECL::L) == 270);
    assert(spec_data_codewords(23, ECL::L) == 1094);
    assert(spec_ec_codewords(23, ECL::L) == 30);
    assert(spec_poly_of_ec(30).len() == 31);
    assert(spec_total_codewords(23) == 1364);
    assert(table_consistent_at(23, ECL::L));
}

proof fn lemma_table_consistency_l_24(version: int)
    requires
        version == 24,
    ensures
        table_consistent_at(version, ECL::L),
{
    let g = spec_groups(24, ECL::L);
    assert(g == ((6int, 117int), (4int, 118int)));
    assert(6int * 117int == 702int && 4int * 118int == 472int);
    assert(10int * 30int == 300int);
    assert(g.0.0 * g.0.1 + g.1.0 * g.1.1 == 1174);
    assert((g.0.0 + g.1.0) * spec_ec_codewords(24, ECL::L) == 300);
    assert(spec_data_codewords(24, ECL::L) == 1174);
    assert(spec_ec_codewords(24, ECL::L) == 30);
    assert(spec_poly_of_ec(30).len() == 31);
    assert(spec_total_codewords(24) == 1474);
    assert(table_consistent_at(24, ECL::L));
}

proof fn lemma_table_consistency_l_25(version: int)
    requires
        version == 25,
    ensures
        table_consistent_at(version, ECL::L),
{
    let g = spec_groups(25, ECL::L);
    assert(g == ((8int, 106int), (4int, 107int)));
    assert(8int * 106int == 848int && 4int * 107int == 428int);
    assert(12int * 26int == 312int);
    assert(g.0.0 * g.0.1 + g.1.0 * g.1.1 == 1276);
    assert((g.0.0 + g.1.0) * spec_ec_codewords(25, ECL::L) == 312);
    assert(spec_data_codewords(25, ECL::L) == 1276);
    assert(spec_ec_codewords(25, ECL::L) == 26);
    assert(spec_poly_of_ec(26).len() == 27);
    assert(spec_total_codewords(25) == 1588);
    assert(table_consistent_at(25, ECL::L));
}

proof fn lemma_table_consistency_l_26(version: int)
    requires
        version == 26,
    ensures
        table_consistent_at(version, ECL::L),
{
    let g = spec_groups(26, ECL::L);
    assert(g == ((10int, 114int), (2int, 115int)));
    assert(10int * 114int == 1140int && 2int * 115int == 230int);
    assert(12int * 28int == 336int);
    assert(g.0.0 * g.0.1 + g.1.0 * g.1.1 == 1370);
    assert((g.0.0 + g.1.0) * spec_ec_codewords(26, ECL::L) == 336);
    assert(spec_data_codewords(26, ECL::L) == 1370);
    assert(spec_ec_codewords(26, ECL::L) == 28);
    assert(spec_poly_of_ec(28).len() == 29);
    assert(spec_total_codewords(26) == 1706);
    assert(table_consistent_at(26, ECL::L));
}

proof fn lemma_table_consistency_l_27(version: int)
    requires
        version == 27,
    ensures
        table_consistent_at(version, ECL::L),
{
    let g = spec_groups(27, ECL::L);
    assert(g == ((8int, 122int), (4int, 123int)));
    assert(8int * 122int == 976int && 4int * 123int == 492int);
    assert(12int * 30int == 360int);
    assert(g.0.0 * g.0.1 + g.1.0 * g.1.1 == 1468);
    assert((g.0.0 + g.1.0) * spec_ec_codewords(27, ECL::L) == 360);
    assert(spec_data_codewords(27, ECL::L) == 1468);
    assert(spec_ec_codewords(27, ECL::L) == 30);
    assert(spec_poly_of_ec(30).len() == 31);
    assert(spec_total_codewords(27) == 1828);
    assert(table_consistent_at(27, ECL::L));
}

proof fn lemma_table_consistency_l_28(version: int)
    requires
        version == 28,
    ensures
        table_consistent_at(version, ECL::L),
{
    let g = spec_groups(28, ECL::L);
    assert(g == ((3int, 117int), (10int, 118int)));
    assert(3int * 117int == 351int && 10int * 118int == 1180int);
    assert(13int * 30int == 390int);
    assert(g.0.0 * g.0.1 + g.1.0 * g.1.1 == 1531);
    assert((g.0.0 + g.1.0) * spec_ec_codewords(28, ECL::L) == 390);
    assert(spec_data_codewords(28, ECL::L) == 1531);
    assert(spec_ec_codewords(28, ECL::L) == 30);
    assert(spec_poly_of_ec(30).len() == 31);
    assert(spec_total_codewords(28) == 1921);
    assert(table_consistent_at(28, ECL::L));
}

proof fn lemma_table_consistency_l_29(version: int)
    requires
        version == 29,
    ensures
        table_consistent_at(version, ECL::L),
{
    let g = spec_groups(29, ECL::L);
    assert(g == ((7int, 116int), (7int, 117int)));
    assert(7int * 116int == 812int && 7int * 117int == 819int);
    assert(14int * 30int == 420int);
    assert(g.0.0 * g.0.1 + g.1.0 * g.1.1 == 1631);
    assert((g.0.0 + g.1.0) * spec_ec_codewords(29, ECL::L) == 420);
    assert(spec_data_codewords(29, ECL::L) == 1631);
    assert(spec_ec_codewords(29, ECL::L) == 30);
    assert(spec_poly_of_ec(30).len() == 31);
    assert(spec_total_codewords(29) == 2051);
    assert(table_consistent_at(29, ECL::L));
}

proof fn lemma_table_consistency_l_30(version: int)
    requires
        version == 30,
    ensures
        table_consistent_at(version, ECL::L),
{
    let g = spec_groups(30, ECL::L);
    assert(g == ((5int, 115int), (10int, 116int)));
    assert(5int * 115int == 575int && 10int * 116int == 1160int);
    assert(15int * 30int == 450int);
    assert(g.0.0 * g.0.1 + g.1.0 * g.1.1 == 1735);
    assert((g.0.0 + g.1.0) * spec_ec_codewords(30, ECL::L) == 450);
    assert(spec_data_codewords(30, ECL::L) == 1735);
    assert(spec_ec_codewords(30, ECL::L) == 30);
    assert(spec_poly_of_ec(30).len() == 31);
    assert(spec_total_codewords(30) == 2185);
    assert(table_consistent_at(30, ECL::L));
}

proof fn lemma_table_consistency_l_31(version: int)
    requires
        version == 31,
    ensures
        table_consistent_at(version, ECL::L),
{
    let g = spec_groups(31, ECL::L);
    assert(g == ((13int, 115int), (3int, 116int)));
    assert(13int * 115int == 1495int && 3int * 116int == 348int);
    assert(16int * 30int == 480int);
    assert(g.0.0 * g.0.1 + g.1.0 * g.1.1 == 1843);
    assert((g.0.0 + g.1.0) * spec_ec_codewords(31, ECL::L) == 480);
    assert(spec_data_codewords(31, ECL::L) == 1843);
    assert(spec_ec_codewords(31, ECL::L) == 30);
    assert(spec_poly_of_ec(30).len() == 31);
    assert(spec_total_codewords(31) == 2323);
    assert(table_consistent_at(31, ECL::L));
}

proof fn lemma_table_consistency_l_32(version: int)
    requires
        version == 32,
    ensures
        table_consistent_at(version, ECL::L),
{
    let g = spec_groups(32, ECL::L);
    assert(g == ((17int, 115int), (0int, 0int)));
    assert(17int * 115int == 1955int && 0int * 0int == 0int);
    assert(17int * 30int == 510int);
    assert(g.0.0 * g.0.1 + g.1.0 * g.1.1 == 1955);
    assert((g.0.0 + g.1.0) * spec_ec_codewords(32, ECL::L) == 510);
    assert(spec_data_codewords(32, ECL::L) == 1955);
    assert(spec_ec_codewords(32, ECL::L) == 30);
    assert(spec_poly_of_ec(30).len() == 31);
    assert(spec_total_codewords(32) == 2465);
    assert(table_consistent_at(32, ECL::L));
}

proof fn lemma_table_consistency_l_33(version: int)
    requires
        version == 33,
    ensures
        table_consistent_at(version, ECL::L),
{
    let g = spec_groups(33, ECL::L);
    assert(g == ((17int, 115int), (1int, 116int)));
    assert(17int * 115int == 1955int && 1int * 116int == 116int);
    assert(18int * 30int == 540int);
    assert(g.0.0 * g.0.1 + g.1.0 * g.1.1 == 2071);
    assert((g.0.0 + g.1.0) * spec_ec_codewords(33, ECL::L) == 540);
    assert(spec_data_codewords(33, ECL::L) == 2071);
    assert(spec_ec_codewords(33, ECL::L) == 30);
    assert(spec_poly_of_ec(30).len() == 31);
    assert(spec_total_codewords(33) == 2611);
    assert(table_consistent_at(33, ECL::L));
}

proof fn lemma_table_consistency_l_34(version: int)
    requires
        version == 34,
    ensures
        table_consistent_at(version, ECL::L),
{
    let g = spec_groups(34, ECL::L);
    assert(g == ((13int, 115int), (6int, 116int)));
    assert(13int * 115int == 1495int && 6int * 116int == 696int);
    assert(19int * 30int == 570int);
    assert(g.0.0 * g.0.1 + g.1.0 * g.1.1 == 2191);
    assert((g.0.0 + g.1.0) * spec_ec_codewords(34, ECL::L) == 570);
    assert(spec_data_codewords(34, ECL::L) == 2191);
    assert(spec_ec_codewords(34, ECL::L) == 30);
    assert(spec_poly_of_ec(30).len() == 31);
    assert(spec_total_codewords(34) == 2761);
    assert(table_consistent_at(34, ECL::L));
}

proof fn lemma_table_consistency_l_35(version: int)
    requires
        version == 35,
    ensures
        table_consistent_at(version, ECL::L),
{
    let g = spec_groups(35, ECL::L);
    assert(g == ((12int, 121int), (7int, 122int)));
    assert(12int * 121int == 1452int && 7int * 122int == 854int);
    assert(19int * 30int == 570int);
    assert(g.0.0 * g.0.1 + g.1.0 * g.1.1 == 2306);
    assert((g.0.0 + g.1.0) * spec_ec_codewords(35, ECL::L) == 570);
    assert(spec_data_codewords(35, ECL::L) == 2306);
    assert(spec_ec_codewords(35, ECL::L) == 30);
    assert(spec_poly_of_ec(30).len() == 31);
    assert(spec_total_codewords(35) == 2876);
    assert(table_consistent_at(35, ECL::L));
}

proof fn lemma_table_consistency_l_36(version: int)
    requires
        version == 36,
    ensures
        table_consistent_at(version, ECL::L),
{
    let g = spec_groups(36, ECL::L);
    assert(g == ((6int, 121int), (14int, 122int)));
    assert(6int * 121int == 726int && 14int * 122int == 1708int);
    assert(20int * 30int == 600int);
    assert(g.0.0 * g.0.1 + g.1.0 * g.1.1 == 2434);
    assert((g.0.0 + g.1.0) * spec_ec_codewords(36, ECL::L) == 600);
    assert(spec_data_codewords(36, ECL::L) == 2434);
    assert(spec_ec_codewords(36, ECL::L) == 30);
    assert(spec_poly_of_ec(30).len() == 31);
    assert(spec_total_codewords(36) == 3034);
    assert(table_consistent_at(36, ECL::L));
}

proof fn lemma_table_consistency_l_37(version: int)
    requires
        version == 37,
    ensures
        table_consistent_at(version, ECL::L),
{
    let g = spec_groups(37, ECL::L);
    assert(g == ((17int, 122int), (4int, 123int)));
    assert(17int * 122int == 2074int && 4int * 123int == 492int);
    assert(21int * 30int == 630int);
    assert(g.0.0 * g.0.1 + g.1.0 * g.1.1 == 2566);
    assert((g.0.0 + g.1.0) * spec_ec_codewords(37, ECL::L) == 630);
    assert(spec_data_codewords(37, ECL::L) == 2566);
    assert(spec_ec_codewords(37, ECL::L) == 30);
    assert(spec_poly_of_ec(30).len() == 31);
    assert(spec_total_codewords(37) == 3196);
    assert(table_consistent_at(37, ECL::L));
}

proof fn lemma_table_consistency_l_38(version: int)
    requires
        version == 38,
    ensures
        table_consistent_at(version, ECL::L),
{
    let g = spec_groups(38, ECL::L);
    assert(g == ((4int, 122int), (18int, 123int)));
    assert(4int * 122int == 488int && 18int * 123int == 2214int);
    assert(22int * 30int == 660int);
    assert(g.0.0 * g.0.1 + g.1.0 * g.1.1 == 2702);
    assert((g.0.0 + g.1.0) * spec_ec_codewords(38, ECL::L) == 660);
    assert(spec_data_codewords(38, ECL::L) == 2702);
    assert(spec_ec_codewords(38, ECL::L) == 30);
    assert(spec_poly_of_ec(30).len() == 31);
    assert(spec_total_codewords(38) == 3362);
    assert(table_consistent_at(38, ECL::L));
}

proof fn lemma_table_consistency_l_39(version: int)
    requires
        version == 39,
    ensures
        table_consistent_at(version, ECL::L),
{
    let g = spec_groups(39, ECL::L);
    assert(g == ((20int, 117int), (4int, 118int)));
    assert(20int * 117int == 2340int && 4int * 118int == 472int);
    assert(24int * 30int == 720int);
    assert(g.0.0 * g.0.1 + g.1.0 * g.1.1 == 2812);
    assert((g.0.0 + g.1.0) * spec_ec_codewords(39, ECL::L) == 720);
    assert(spec_data_codewords(39, ECL::L) == 2812);
    assert(spec_ec_codewords(39, ECL::L) == 30);
    assert(spec_poly_of_ec(30).len() == 31);
    assert(spec_total_codewords(39) == 3532);
    assert(table_consistent_at(39, ECL::L));
}

proof fn lemma_table_consistency_l_40(version: int)
    requires
        version == 40,
    ensures
        table_consistent_at(version, ECL::L),
{
    let g = spec_groups(40, ECL::L);
    assert(g == ((19int, 118int), (6int, 119int)));
    assert(19int * 118int == 2242int && 6int * 119int == 714int);
    assert(25int * 30int == 750int);
    assert(g.0.0 * g.0.1 + g.1.0 * g.1.1 == 2956);
    assert((g.0.0 + g.1.0) * spec_ec_codewords(40, ECL::L) == 750);
    assert(spec_data_codewords(40, ECL::L) == 2956);
    assert(spec_ec_codewords(40, ECL::L) == 30);
    assert(spec_poly_of_ec(30).len() == 31);
    assert(spec_total_codewords(40) == 3706);
    assert(table_consistent_at(40, ECL::L));
}

proof fn lemma_table_consistency_l(version: int)
    requires
        1 <= version <= 40,
    ensures
        table_consistent_at(version, ECL::L),
{
    if version == 1 {
        lemma_table_consistency_l_1(version);
    } else if version == 2 {
        lemma_table_consistency_l_2(version);
    } else if version == 3 {
        lemma_table_consistency_l_3(version);
    } else if version == 4 {
        lemma_table_consistency_l_4(version);
    } else if version == 5 {
        lemma_table_consistency_l_5(version);
    } else if version == 6 {
        lemma_table_consistency_l_6(version);
    } else if version == 7 {
        lemma_table_consistency_l_7(version);
    } else if version == 8 {
        lemma_table_consistency_l_8(version);
    } else if version == 9 {
        lemma_table_consistency_l_9(version);
    } else if version == 10 {
        lemma_table_consistency_l_10(version);
    } else if version == 11 {
        lemma_table_consistency_l_11(version);
    } else if version == 12 {
        lemma_table_consistency_l_12(version);
    } else if version == 13 {
        lemma_table_consistency_l_13(version);
    } else if version == 14 {
        lemma_table_consistency_l_14(version);
    } else if version == 15 {
        lemma_table_consistency_l_15(version);
    } else if version == 16 {
        lemma_table_consistency_l_16(version);
    } else if version == 17 {
        lemma_table_consistency_l_17(version);
    } else if version == 18 {
        lemma_table_consistency_l_18(version);
    } else if version == 19 {
        lemma_table_consistency_l_19(version);
    } else if version == 20 {
        lemma_table_consistency_l_20(version);
    } else if version == 21 {
        lemma_table_consistency_l_21(version);
    } else if version == 22 {
        lemma_table_consistency_l_22(version);
    } else if version == 23 {
        lemma_table_consistency_l_23(version);
    } else if version == 24 {
        lemma_table_consistency_l_24(version);
    } else if version == 25 {
        lemma_table_consistency_l_25(version);
    } else if version == 26 {
        lemma_table_consistency_l_26(version);
    } else if version == 27 {
        lemma_table_consistency_l_27(version);
    } else if version == 28 {
        lemma_table_consistency_l_28(version);
    } else if version == 29 {
        lemma_table_consistency_l_29(version);
    } else if version == 30 {
        lemma_table_consistency_l_30(version);
    } else if version == 31 {
        lemma_table_consistency_l_31(version);
    } else if version == 32 {
        lemma_table_consistency_l_32(version);
    } else if version == 33 {
        lemma_table_consistency_l_33(version);
    } else if version == 34 {
        lemma_table_consistency_l_34(version);
    } else if version == 35 {
        lemma_table_consistency_l_35(version);
    } else if version == 36 {
        lemma_table_consistency_l_36(version);
    } else if version == 37 {
        lemma_table_consistency_l_37(version);
    } else if version == 38 {
        lemma_table_consistency_l_38(version);
    } else if version == 39 {
        lemma_table_consistency_l_39(version);
    } else if version == 40 {
        lemma_table_consistency_l_40(version);
    }
}

proof fn lemma_table_consistency_m_1(version: int)
    requires
        version == 1,
    ensures
        table_consistent_at(version, ECL::M),
{
    let g = spec_groups(1, ECL::M);
    assert(g == ((1int, 16int), (0int, 0int)));
    assert(1int * 16int == 16int && 0int * 0int == 0int);
    assert(1int * 10int == 10int);
    assert(g.0.0 * g.0.1 + g.1.0 * g.1.1 == 16);
    assert((g.0.0 + g.1.0) * spec_ec_codewords(1, ECL::M) == 10);
    assert(spec_data_codewords(1, ECL::M) == 16);
    assert(spec_ec_codewords(1, ECL::M) == 10);
    assert(spec_poly_of_ec(10).len() == 11);
    assert(spec_total_codewords(1) == 26);
    assert(table_consistent_at(1, ECL::M));
}

proof fn lemma_table_consistency_m_2(version: int)
    requires
        version == 2,
    ensures
        table_consistent_at(version, ECL::M),
{
    let g = spec_groups(2, ECL::M);
    assert(g == ((1int, 28int), (0int, 0int)));
    assert(1int * 28int == 28int && 0int * 0int == 0int);
    assert(1int * 16int == 16int);
    assert(g.0.0 * g.0.1 + g.1.0 * g.1.1 == 28);
    assert((g.0.0 + g.1.0) * spec_ec_codewords(2, ECL::M) == 16);
    assert(spec_data_codewords(2, ECL::M) == 28);
    assert(spec_ec_codewords(2, ECL::M) == 16);
    assert(spec_poly_of_ec(16).len() == 17);
    assert(spec_total_codewords(2) == 44);
    assert(table_consistent_at(2, ECL::M));
}

proof fn lemma_table_consistency_m_3(version: int)
    requires
        version == 3,
    ensures
        table_consistent_at(version, ECL::M),
{
    let g = spec_groups(3, ECL::M);
    assert(g == ((1int, 44int), (0int, 0int)));
    assert(1int * 44int == 44int && 0int * 0int == 0int);
    assert(1int * 26int == 26int);
    assert(g.0.0 * g.0.1 + g.1.0 * g.1.1 == 44);
    assert((g.0.0 + g.1.0) * spec_ec_codewords(3, ECL::M) == 26);
    assert(spec_data_codewords(3, ECL::M) == 44);
    assert(spec_ec_codewords(3, ECL::M) == 26);
    assert(spec_poly_of_ec(26).len() == 27);
    assert(spec_total_codewords(3) == 70);
    assert(table_consistent_at(3, ECL::M));
}

proof fn lemma_table_consistency_m_4(version: int)
    requires
        version == 4,
    ensures
        table_consistent_at(version, ECL::M),
{
    let g = spec_groups(4, ECL::M);
    assert(g == ((2int, 32int), (0int, 0int)));
    assert(2int * 32int == 64int && 0int * 0int == 0int);
    assert(2int * 18int == 36int);
    assert(g.0.0 * g.0.1 + g.1.0 * g.1.1 == 64);
    assert((g.0.0 + g.1.0) * spec_ec_codewords(4, ECL::M) == 36);
    assert(spec_data_codewords(4, ECL::M) == 64);
    assert(spec_ec_codewords(4, ECL::M) == 18);
    assert(spec_poly_of_ec(18).len() == 19);
    assert(spec_total_codewords(4) == 100);
    assert(table_consistent_at(4, ECL::M));
}

proof fn lemma_table_consistency_m_5(version: int)
    requires
        version == 5,
    ensures
        table_consistent_at(version, ECL::M),
{
    let g = spec_groups(5, ECL::M);
    assert(g == ((2int, 43int), (0int, 0int)));
    assert(2int * 43int == 86int && 0int * 0int == 0int);
    assert(2int * 24int == 48int);
    assert(g.0.0 * g.0.1 + g.1.0 * g.1.1 == 86);
    assert((g.0.0 + g.1.0) * spec_ec_codewords(5, ECL::M) == 48);
    assert(spec_data_codewords(5, ECL::M) == 86);
    assert(spec_ec_codewords(5, ECL::M) == 24);
    assert(spec_poly_of_ec(24).len() == 25);
    assert(spec_total_codewords(5) == 134);
    assert(table_consistent_at(5, ECL::M));
}

proof fn lemma_table_consistency_m_6(version: int)
    requires
        version == 6,
    ensures
        table_consistent_at(version, ECL::M),
{
    let g = spec_groups(6, ECL::M);
    assert(g == ((4int, 27int), (0int, 0int)));
    assert(4int * 27int == 108int && 0int * 0int == 0int);
    assert(4int * 16int == 64int);
    assert(g.0.0 * g.0.1 + g.1.0 * g.1.1 == 108);
    assert((g.0.0 + g.1.0) * spec_ec_codewords(6, ECL::M) == 64);
    assert(spec_data_codewords(6, ECL::M) == 108);
    assert(spec_ec_codewords(6, ECL::M) == 16);
    assert(spec_poly_of_ec(16).len() == 17);
    assert(spec_total_codewords(6) == 172);
    assert(table_consistent_at(6, ECL::M));
}

proof fn lemma_table_consistency_m_7(version: int)
    requires
        version == 7,
    ensures
        table_consistent_at(version, ECL::M),
{
    let g = spec_groups(7, ECL::M);
    assert(g == ((4int, 31int), (0int, 0int)));
    assert(4int * 31int == 124int && 0int * 0int == 0int);
    assert(4int * 18int == 72int);
    assert(g.0.0 * g.0.1 + g.1.0 * g.1.1 == 124);
    assert((g.0.0 + g.1.0) * spec_ec_codewords(7, ECL::M) == 72);
    assert(spec_data_codewords(7, ECL::M) == 124);
    assert(spec_ec_codewords(7, ECL::M) == 18);
    assert(spec_poly_of_ec(18).len() == 19);
    assert(spec_total_codewords(7) == 196);
    assert(table_consistent_at(7, ECL::M));
}

proof fn lemma_table_consistency_m_8(version: int)
    requires
        version == 8,
    ensures
        table_consistent_at(version, ECL::M),
{
    let g = spec_groups(8, ECL::M);
    assert(g == ((2int, 38int), (2int, 39int)));
    assert(2int * 38int == 76int && 2int * 39int == 78int);
    assert(4int * 22int == 88int);
    assert(g.0.0 * g.0.1 + g.1.0 * g.1.1 == 154);
    assert((g.0.0 + g.1.0) * spec_ec_codewords(8, ECL::M) == 88);
    assert(spec_data_codewords(8, ECL::M) == 154);
    assert(spec_ec_codewords(8, ECL::M) == 22);
    assert(spec_poly_of_ec(22).len() == 23);
    assert(spec_total_codewords(8) == 242);
    assert(table_consistent_at(8, ECL::M));
}

proof fn lemma_table_consistency_m_9(version: int)
    requires
        version == 9,
    ensures
        table_consistent_at(version, ECL::M),
{
    let g = spec_groups(9, ECL::M);
    assert(g == ((3int, 36int), (2int, 37int)));
    assert(3int * 36int == 108int && 2int * 37int == 74int);
    assert(5int * 22int == 110int);
    assert(g.0.0 * g.0.1 + g.1.0 * g.1.1 == 182);
    assert((g.0.0 + g.1.0) * spec_ec_codewords(9, ECL::M) == 110);
    assert(spec_data_codewords(9, ECL::M) == 182);
    assert(spec_ec_codewords(9, ECL::M) == 22);
    assert(spec_poly_of_ec(22).len() == 23);
    assert(spec_total_codewords(9) == 292);
    assert(table_consistent_at(9, ECL::M));
}

proof fn lemma_table_consistency_m_10(version: int)
    requires
        version == 10,
    ensures
        table_consistent_at(version, ECL::M),
{
    let g = spec_groups(10, ECL::M);
    assert(g == ((4int, 43int), (1int, 44int)));
    assert(4int * 43int == 172int && 1int * 44int == 44int);
    assert(5int * 26int == 130int);
    assert(g.0.0 * g.0.1 + g.1.0 * g.1.1 == 216);
    assert((g.0.0 + g.1.0) * spec_ec_codewords(10, ECL::M) == 130);
    assert(spec_data_codewords(10, ECL::M) == 216);
    assert(spec_ec_codewords(10, ECL::M) == 26);
    assert(spec_poly_of_ec(26).len() == 27);
    assert(spec_total_codewords(10) == 346);
    assert(table_consistent_at(10, ECL::M));
}

proof fn lemma_table_consistency_m_11(version: int)
    requires
        version == 11,
    ensures
        table_consistent_at(version, ECL::M),
{
    let g = spec_groups(11, ECL::M);
    assert(g == ((1int, 50int), (4int, 51int)));
    assert(1int * 50int == 50int && 4int * 51int == 204int);
    assert(5int * 30int == 150int);
    assert(g.0.0 * g.0.1 + g.1.0 * g.1.1 == 254);
    assert((g.0.0 + g.1.0) * spec_ec_codewords(11, ECL::M) == 150);
    assert(spec_data_codewords(11, ECL::M) == 254);
    assert(spec_ec_codewords(11, ECL::M) == 30);
    assert(spec_poly_of_ec(30).len() == 31);
    assert(spec_total_codewords(11) == 404);
    assert(table_consistent_at(11, ECL::M));
}

proof fn lemma_table_consistency_m_12(version: int)
    requires
        version == 12,
    ensures
        table_consistent_at(version, ECL::M),
{
    let g = spec_groups(12, ECL::M);
    assert(g == ((6int, 36int), (2int, 37int)));
    assert(6int * 36int == 216int && 2int * 37int == 74int);
    assert(8int * 22int == 176int);
    assert(g.0.0 * g.0.1 + g.1.0 * g.1.1 == 290);
    assert((g.0.0 + g.1.0) * spec_ec_codewords(12, ECL::M) == 176);
    assert(spec_data_codewords(12, ECL::M) == 290);
    assert(spec_ec_codewords(12, ECL::M) == 22);
    assert(spec_poly_of_ec(22).len() == 23);
    assert(spec_total_codewords(12) == 466);
    assert(table_consistent_at(12, ECL::M));
}

proof fn lemma_table_consistency_m_13(version: int)
    requires
        version == 13,
    ensures
        table_consistent_at(version, ECL::M),
{
    let g = spec_groups(13, ECL::M);
    assert(g == ((8int, 37int), (1int, 38int)));
    assert(8int * 37int == 296int && 1int * 38int == 38int);
    assert(9int * 22int == 198int);
    assert(g.0.0 * g.0.1 + g.1.0 * g.1.1 == 334);
    assert((g.0.0 + g.1.0) * spec_ec_codewords(13, ECL::M) == 198);
    assert(spec_data_codewords(13, ECL::M) == 334);
    assert(spec_ec_codewords(13, ECL::M) == 22);
    assert(spec_poly_of_ec(22).len() == 23);
    assert(spec_total_codewords(13) == 532);
    assert(table_consistent_at(13, ECL::M));
}

proof fn lemma_table_consistency_m_14(version: int)
    requires
        version == 14,
    ensures
        table_consistent_at(version, ECL::M),
{
    let g = spec_groups(14, ECL::M);
    assert(g == ((4int, 40int), (5int, 41int)));
    assert(4int * 40int == 160int && 5int * 41int == 205int);
    assert(9int * 24int == 216int);
    assert(g.0.0 * g.0.1 + g.1.0 * g.1.1 == 365);
    assert((g.0.0 + g.1.0) * spec_ec_codewords(14, ECL::M) == 216);
    assert(spec_data_codewords(14, ECL::M) == 365);
    assert(spec_ec_codewords(14, ECL::M) == 24);
    assert(spec_poly_of_ec(24).len() == 25);
    assert(spec_total_codewords(14) == 581);
    assert(table_consistent_at(14, ECL::M));
}

proof fn lemma_table_consistency_m_15(version: int)
    requires
        version == 15,
    ensures
        table_consistent_at(version, ECL::M),
{
    let g = spec_groups(15, ECL::M);
    assert(g == ((5int, 41int), (5int, 42int)));
    assert(5int * 41int == 205int && 5int * 42int == 210int);
    assert(10int * 24int == 240int);
    assert(g.0.0 * g.0.1 + g.1.0 * g.1.1 == 415);
    assert((g.0.0 + g.1.0) * spec_ec_codewords(15, ECL::M) == 240);
    assert(spec_data_codewords(15, ECL::M) == 415);
    assert(spec_ec_codewords(15, ECL::M) == 24);
    assert(spec_poly_of_ec(24).len() == 25);
    assert(spec_total_codewords(15) == 655);
    assert(table_consistent_at(15, ECL::M));
}

proof fn lemma_table_consistency_m_16(version: int)
    requires
        version == 16,
    ensures
        table_consistent_at(version, ECL::M),
{
    let g = spec_groups(16, ECL::M);
    assert(g == ((7int, 45int), (3int, 46int)));
    assert(7int * 45int == 315int && 3int * 46int == 138int);
    assert(10int * 28int == 280int);
    assert(g.0.0 * g.0.1 + g.1.0 * g.1.1 == 453);
    assert((g.0.0 + g.1.0) * spec_ec_codewords(16, ECL::M) == 280);
    assert(spec_data_codewords(16, ECL::M) == 453);
    assert(spec_ec_codewords(16, ECL::M) == 28);
    assert(spec_poly_of_ec(28).len() == 29);
    assert(spec_total_codewords(16) == 733);
    assert(table_consistent_at(16, ECL::M));
}

proof fn lemma_table_consistency_m_17(version: int)
    requires
        version == 17,
    ensures
        table_consistent_at(version, ECL::M),
{
    let g = spec_groups(17, ECL::M);
    assert(g == ((10int, 46int), (1int, 47int)));
    assert(10int * 46int == 460int && 1int * 47int == 47int);
    assert(11int * 28int == 308int);
    assert(g.0.0 * g.0.1 + g.1.0 * g.1.1 == 507);
    assert((g.0.0 + g.1.0) * spec_ec_codewords(17, ECL::M) == 308);
    assert(spec_data_codewords(17, ECL::M) == 507);
    assert(spec_ec_codewords(17, ECL::M) == 28);
    assert(spec_poly_of_ec(28).len() == 29);
    assert(spec_total_codewords(17) == 815);
    assert(table_consistent_at(17, ECL::M));
}

proof fn lemma_table_consistency_m_18(version: int)
    requires
        version == 18,
    ensures
        table_consistent_at(version, ECL::M),
{
    let g = spec_groups(18, ECL::M);
    assert(g == ((9int, 43int), (4int, 44int)));
    assert(9int * 43int == 387int && 4int * 44int == 176int);
    assert(13int * 26int == 338int);
    assert(g.0.0 * g.0.1 + g.1.0 * g.1.1 == 563);
    assert((g.0.0 + g.1.0) * spec_ec_codewords(18, ECL::M) == 338);
    assert(spec_data_codewords(18, ECL::M) == 563);
    assert(spec_ec_codewords(18, ECL::M) == 26);
    assert(spec_poly_of_ec(26).len() == 27);
    assert(spec_total_codewords(18) == 901);
    assert(table_consistent_at(18, ECL::M));
}

proof fn lemma_table_consistency_m_19(version: int)
    requires
        version == 19,
    ensures
        table_consistent_at(version, ECL::M),
{
    let g = spec_groups(19, ECL::M);
    assert(g == ((3int, 44int), (11int, 45int)));
    assert(3int * 44int == 132int && 11int * 45int == 495int);
    assert(14int * 26int == 364int);
    assert(g.0.0 * g.0.1 + g.1.0 * g.1.1 == 627);
    assert((g.0.0 + g.1.0) * spec_ec_codewords(19, ECL::M) == 364);
    assert(spec_data_codewords(19, ECL::M) == 627);
    assert(spec_ec_codewords(19, ECL::M) == 26);
    assert(spec_poly_of_ec(26).len() == 27);
    assert(spec_total_codewords(19) == 991);
    assert(table_consistent_at(19, ECL::M));
}

proof fn lemma_table_consistency_m_20(version: int)
    requires
        version == 20,
    ensures
        table_consistent_at(version, ECL::M),
{
    let g = spec_groups(20, ECL::M);
    assert(g == ((3int, 41int), (13int, 42int)));
    assert(3int * 41int == 123int && 13int * 42int == 546int);
    assert(16int * 26int == 416int);
    assert(g.0.0 * g.0.1 + g.1.0 * g.1.1 == 669);
    assert((g.0.0 + g.1.0) * spec_ec_codewords(20, ECL::M) == 416);
    assert(spec_data_codewords(20, ECL::M) == 669);
    assert(spec_ec_codewords(20, ECL::M) == 26);
    assert(spec_poly_of_ec(26).len() == 27);
    assert(spec_total_codewords(20) == 1085);
    assert(table_consistent_at(20, ECL::M));
}

proof fn lemma_table_consistency_m_21(version: int)
    requires
        version == 21,
    ensures
        table_consistent_at(version, ECL::M),
{
    let g = spec_groups(21, ECL::M);
    assert(g == ((17int, 42int), (0int, 0int)));
    assert(17int * 42int == 714int && 0int * 0int == 0int);
    assert(17int * 26int == 442int);
    assert(g.0.0 * g.0.1 + g.1.0 * g.1.1 == 714);
    assert((g.0.0 + g.1.0) * spec_ec_codewords(21, ECL::M) == 442);
    assert(spec_data_codewords(21, ECL::M) == 714);
    assert(spec_ec_codewords(21, ECL::M) == 26);
    assert(spec_poly_of_ec(26).len() == 27);
    assert(spec_total_codewords(21) == 1156);
    assert(table_consistent_at(21, ECL::M));
}

proof fn lemma_table_consistency_m_22(version: int)
    requires
        version == 22,
    ensures
        table_consistent_at(version, ECL::M),
{
    let g = spec_groups(22, ECL::M);
    assert(g == ((17int, 46int), (0int, 0int)));
    assert(17int * 46int == 782int && 0int * 0int == 0int);
    assert(17int * 28int == 476int);
    assert(g.0.0 * g.0.1 + g.1.0 * g.1.1 == 782);
    assert((g.0.0 + g.1.0) * spec_ec_codewords(22, ECL::M) == 476);
    assert(spec_data_codewords(22, ECL::M) == 782);
    assert(spec_ec_codewords(22, ECL::M) == 28);
    assert(spec_poly_of_ec(28).len() == 29);
    assert(spec_total_codewords(22) == 1258);
    assert(table_consistent_at(22, ECL::M));
}

proof fn lemma_table_consistency_m_23(version: int)
    requires
        version == 23,
    ensures
        table_consistent_at(version, ECL::M),
{
    let g = spec_groups(23, ECL::M);
    assert(g == ((4int, 47int), (14int, 48int)));
    assert(4int * 47int == 188int && 14int * 48int == 672int);
    assert(18int * 28int == 504int);
    assert(g.0.0 * g.0.1 + g.1.0 * g.1.1 == 860);
    assert((g.0.0 + g.1.0) * spec_ec_codewords(23, ECL::M) == 504);
    assert(spec_data_codewords(23, ECL::M) == 860);
    assert(spec_ec_codewords(23, ECL::M) == 28);
    assert(spec_poly_of_ec(28).len() == 29);
    assert(spec_total_codewords(23) == 1364);
    assert(table_consistent_at(23, ECL::M));
}

proof fn lemma_table_consistency_m_24(version: int)
    requires
        version == 24,
    ensures
        table_consistent_at(version, ECL::M),
{
    let g = spec_groups(24, ECL::M);
    assert(g == ((6int, 45int), (14int, 46int)));
    assert(6int * 45int == 270int && 14int * 46int == 644int);
    assert(20int * 28int == 560int);
    assert(g.0.0 * g.0.1 + g.1.0 * g.1.1 == 914);
    assert((g.0.0 + g.1.0) * spec_ec_codewords(24, ECL::M) == 560);
    assert(spec_data_codewords(24, ECL::M) == 914);
    assert(spec_ec_codewords(24, ECL::M) == 28);
    assert(spec_poly_of_ec(28).len() == 29);
    assert(spec_total_codewords(24) == 1474);
    assert(table_consistent_at(24, ECL::M));
}

proof fn lemma_table_consistency_m_25(version: int)
    requires
        version == 25,
    ensures
        table_consistent_at(version, ECL::M),
{
    let g = spec_groups(25, ECL::M);
    assert(g == ((8int, 47int), (13int, 48int)));
    assert(8int * 47int == 376int && 13int * 48int == 624int);
    assert(21int * 28int == 588int);
    assert(g.0.0 * g.0.1 + g.1.0 * g.1.1 == 1000);
    assert((g.0.0 + g.1.0) * spec_ec_codewords(25, ECL::M) == 588);
    assert(spec_data_codewords(25, ECL::M) == 1000);
    assert(spec_ec_codewords(25, ECL::M) == 28);
    assert(spec_poly_of_ec(28).len() == 29);
    assert(spec_total_codewords(25) == 1588);
    assert(table_consistent_at(25, ECL::M));
}

proof fn lemma_table_consistency_m_26(version: int)
    requires
        version == 26,
    ensures
        table_consistent_at(version, ECL::M),
{
    let g = spec_groups(26, ECL::M);
    assert(g == ((19int, 46int), (4int, 47int)));
    assert(19int * 46int == 874int && 4int * 47int == 188int);
    assert(23int * 28int == 644int);
    assert(g.0.0 * g.0.1 + g.1.0 * g.1.1 == 1062);
    assert((g.0.0 + g.1.0) * spec_ec_codewords(26, ECL::M) == 644);
    assert(spec_data_codewords(26, ECL::M) == 1062);
    assert(spec_ec_codewords(26, ECL::M) == 28);
    assert(spec_poly_of_ec(28).len() == 29);
    assert(spec_total_codewords(26) == 1706);
    assert(table_consistent_at(26, ECL::M));
}

proof fn lemma_table_consistency_m_27(version: int)
    requires
        version == 27,
    ensures
        table_consistent_at(version, ECL::M),
{
    let g = spec_groups(27, ECL::M);
    assert(g == ((22int, 45int), (3int, 46int)));
    assert(22int * 45int == 990int && 3int * 46int == 138int);
    assert(25int * 28int == 700int);
    assert(g.0.0 * g.0.1 + g.1.0 * g.1.1 == 1128);
    assert((g.0.0 + g.1.0) * spec_ec_codewords(27, ECL::M) == 700);
    assert(spec_data_codewords(27, ECL::M) == 1128);
    assert(spec_ec_codewords(27, ECL::M) == 28);
    assert(spec_poly_of_ec(28).len() == 29);
    assert(spec_total_codewords(27) == 1828);
    assert(table_consistent_at(27, ECL::M));
}

proof fn lemma_table_consistency_m_28(version: int)
    requires
        version == 28,
    ensures
        table_consistent_at(version, ECL::M),
{
    let g = spec_groups(28, ECL::M);
    assert(g == ((3int, 45int), (23int, 46int)));
    assert(3int * 45int == 135int && 23int * 46int == 1058int);
    assert(26int * 28int == 728int);
    assert(g.0.0 * g.0.1 + g.1.0 * g.1.1 == 1193);
    assert((g.0.0 + g.1.0) * spec_ec_codewords(28, ECL::M) == 728);
    assert(spec_data_codewords(28, ECL::M) == 1193);
    assert(spec_ec_codewords(28, ECL::M) == 28);
    assert(spec_poly_of_ec(28).len() == 29);
    assert(spec_total_codewords(28) == 1921);
    assert(table_consistent_at(28, ECL::M));
}

proof fn lemma_table_consistency_m_29(version: int)
    requires
        version == 29,
    ensures
        table_consistent_at(version, ECL::M),
{
    let g = spec_groups(29, ECL::M);
    assert(g == ((21int, 45int), (7int, 46int)));
    assert(21int * 45int == 945int && 7int * 46int == 322int);
    assert(28int * 28int == 784int);
    assert(g.0.0 * g.0.1 + g.1.0 * g.1.1 == 1267);
    assert((g.0.0 + g.1.0) * spec_ec_codewords(29, ECL::M) == 784);
    assert(spec_data_codewords(29, ECL::M) == 1267);
    assert(spec_ec_codewords(29, ECL::M) == 28);
    assert(spec_poly_of_ec(28).len() == 29);
    assert(spec_total_codewords(29) == 2051);
    assert(table_consistent_at(29, ECL::M));
}

proof fn lemma_table_consistency_m_30(version: int)
    requires
        version == 30,
    ensures
        table_consistent_at(version, ECL::M),
{
    let g = spec_groups(30, ECL::M);
    assert(g == ((19int, 47int), (10int, 48int)));
    assert(19int * 47int == 893int && 10int * 48int == 480int);
    assert(29int * 28int == 812int);
    assert(g.0.0 * g.0.1 + g.1.0 * g.1.1 == 1373);
    assert((g.0.0 + g.1.0) * spec_ec_codewords(30, ECL::M) == 812);
    assert(spec_data_codewords(30, ECL::M) == 1373);
    assert(spec_ec_codewords(30, ECL::M) == 28);
    assert(spec_poly_of_ec(28).len() == 29);
    assert(spec_total_codewords(30) == 2185);
    assert(table_consistent_at(30, ECL::M));
}

proof fn lemma_table_consistency_m_31(version: int)
    requires
        version == 31,
    ensures
        table_consistent_at(version, ECL::M),
{
    let g = spec_groups(31, ECL::M);
    assert(g == ((2int, 46int), (29int, 47int)));
    assert(2int * 46int == 92int && 29int * 47int == 1363int);
    assert(31int * 28int == 868int);
    assert(g.0.0 * g.0.1 + g.1.0 * g.1.1 == 1455);
    assert((g.0.0 + g.1.0) * spec_ec_codewords(31, ECL::M) == 868);
    assert(spec_data_codewords(31, ECL::M) == 1455);
    assert(spec_ec_codewords(31, ECL::M) == 28);
    assert(spec_poly_of_ec(28).len() == 29);
    assert(spec_total_codewords(31) == 2323);
    assert(table_consistent_at(31, ECL::M));
}

proof fn lemma_table_consistency_m_32(version: int)
    requires
        version == 32,
    ensures
        table_consistent_at(version, ECL::M),
{
    let g = spec_groups(32, ECL::M);
    assert(g == ((10int, 46int), (23int, 47int)));
    assert(10int * 46int == 460int && 23int * 47int == 1081int);
    assert(33int * 28int == 924int);
    assert(g.0.0 * g.0.1 + g.1.0 * g.1.1 == 1541);
    assert((g.0.0 + g.1.0) * spec_ec_codewords(32, ECL::M) == 924);
    assert(spec_data_codewords(32, ECL::M) == 1541);
    assert(spec_ec_codewords(32, ECL::M) == 28);
    assert(spec_poly_of_ec(28).len() == 29);
    assert(spec_total_codewords(32) == 2465);
    assert(table_consistent_at(32, ECL::M));
}

proof fn lemma_table_consistency_m_33(version: int)
    requires
        version == 33,
    ensures
        table_consistent_at(version, ECL::M),
{
    let g = spec_groups(33, ECL::M);
    assert(g == ((14int, 46int), (21int, 47int)));
    assert(14int * 46int == 644int && 21int * 47int == 987int);
    assert(35int * 28int == 980int);
    assert(g.0.0 * g.0.1 + g.1.0 * g.1.1 == 1631);
    assert((g.0.0 + g.1.0) * spec_ec_codewords(33, ECL::M) == 980);
    assert(spec_data_codewords(33, ECL::M) == 1631);
    assert(spec_ec_codewords(33, ECL::M) == 28);
    assert(spec_poly_of_ec(28).len() == 29);
    assert(spec_total_codewords(33) == 2611);
    assert(table_consistent_at(33, ECL::M));
}

proof fn lemma_table_consistency_m_34(version: int)
    requires
        version == 34,
    ensures
        table_consistent_at(version, ECL::M),
{
    let g = spec_groups(34, ECL::M);
    assert(g == ((14int, 46int), (23int, 47int)));
    assert(14int * 46int == 644int && 23int * 47int == 1081int);
    assert(37int * 28int == 1036int);
    assert(g.0.0 * g.0.1 + g.1.0 * g.1.1 == 1725);
    assert((g.0.0 + g.1.0) * spec_ec_codewords(34, ECL::M) == 1036);
    assert(spec_data_codewords(34, ECL::M) == 1725);
    assert(spec_ec_codewords(34, ECL::M) == 28);
    assert(spec_poly_of_ec(28).len() == 29);
    assert(spec_total_codewords(34) == 2761);
    assert(table_consistent_at(34, ECL::M));
}

proof fn lemma_table_consistency_m_35(version: int)
    requires
        version == 35,
    ensures
        table_consistent_at(version, ECL::M),
{
    let g = spec_groups(35, ECL::M);
    assert(g == ((12int, 47int), (26int, 48int)));
    assert(12int * 47int == 564int && 26int * 48int == 1248int);
    assert(38int * 28int == 1064int);
    assert(g.0.0 * g.0.1 + g.1.0 * g.1.1 == 1812);
    assert((g.0.0 + g.1.0) * spec_ec_codewords(35, ECL::M) == 1064);
    assert(spec_data_codewords(35, ECL::M) == 1812);
    assert(spec_ec_codewords(35, ECL::M) == 28);
    assert(spec_poly_of_ec(28).len() == 29);
    assert(spec_total_codewords(35) == 2876);
    assert(table_consistent_at(35, ECL::M));
}

proof fn lemma_table_consistency_m_36(version: int)
    requires
        version == 36,
    ensures
        table_consistent_at(version, ECL::M),
{
    let g = spec_groups(36, ECL::M);
    assert(g == ((6int, 47int), (34int, 48int)));
    assert(6int * 47int == 282int && 34int * 48int == 1632int);
    assert(40int * 28int == 1120int);
    assert(g.0.0 * g.0.1 + g.1.0 * g.1.1 == 1914);
    assert((g.0.0 + g.1.0) * spec_ec_codewords(36, ECL::M) == 1120);
    assert(spec_data_codewords(36, ECL::M) == 1914);
    assert(spec_ec_codewords(36, ECL::M) == 28);
    assert(spec_poly_of_ec(28).len() == 29);
    assert(spec_total_codewords(36) == 3034);
    assert(table_consistent_at(36, ECL::M));
}

proof fn lemma_table_consistency_m_37(version: int)
    requires
        version == 37,
    ensures
        table_consistent_at(version, ECL::M),
{
    let g = spec_groups(37, ECL::M);
    assert(g == ((29int, 46int), (14int, 47int)));
    assert(29int * 46int == 1334int && 14int * 47int == 658int);
    assert(43int * 28int == 1204int);
    assert(g.0.0 * g.0.1 + g.1.0 * g.1.1 == 1992);
    assert((g.0.0 + g.1.0) * spec_ec_codewords(37, ECL::M) == 1204);
    assert(spec_data_codewords(37, ECL::M) == 1992);
    assert(spec_ec_codewords(37, ECL::M) == 28);
    assert(spec_poly_of_ec(28).len() == 29);
    assert(spec_total_codewords(37) == 3196);
    assert(table_consistent_at(37, ECL::M));
}

proof fn lemma_table_consistency_m_38(version: int)
    requires
        version == 38,
    ensures
        table_consistent_at(version, ECL::M),
{
    let g = spec_groups(38, ECL::M);
    assert(g == ((13int, 46int), (32int, 47int)));
    assert(13int * 46int == 598int && 32int * 47int == 1504int);
    assert(45int * 28int == 1260int);
    assert(g.0.0 * g.0.1 + g.1.0 * g.1.1 == 2102);
    assert((g.0.0 + g.1.0) * spec_ec_codewords(38, ECL::M) == 1260);
    assert(spec_data_codewords(38, ECL::M) == 2102);
    assert(spec_ec_codewords(38, ECL::M) == 28);
    assert(spec_poly_of_ec(28).len() == 29);
    assert(spec_total_codewords(38) == 3362);
    assert(table_consistent_at(38, ECL::M));
}

proof fn lemma_table_consistency_m_39(version: int)
    requires
        version == 39,
    ensures
        table_consistent_at(version, ECL::M),
{
    let g = spec_groups(39, ECL::M);
    assert(g == ((40int, 47int), (7int, 48int)));
    assert(40int * 47int == 1880int && 7int * 48int == 336int);
    assert(47int * 28int == 1316int);
    assert(g.0.0 * g.0.1 + g.1.0 * g.1.1 == 2216);
    assert((g.0.0 + g.1.0) * spec_ec_codewords(39, ECL::M) == 1316);
    assert(spec_data_codewords(39, ECL::M) == 2216);
    assert(spec_ec_codewords(39, ECL::M) == 28);
    assert(spec_poly_of_ec(28).len() == 29);
    assert(spec_total_codewords(39) == 3532);
    assert(table_consistent_at(39, ECL::M));
}

proof fn lemma_table_consistency_m_40(version: int)
    requires
        version == 40,
    ensures
        table_consistent_at(version, ECL::M),
{
    let g = spec_groups(40, ECL::M);
    assert(g == ((18int, 47int), (31int, 48int)));
    assert(18int * 47int == 846int && 31int * 48int == 1488int);
    assert(49int * 28int == 1372int);
    assert(g.0.0 * g.0.1 + g.1.0 * g.1.1 == 2334);
    assert((g.0.0 + g.1.0) * spec_ec_codewords(40, ECL::M) == 1372);
    assert(spec_data_codewords(40, ECL::M) == 2334);
    assert(spec_ec_codewords(40, ECL::M) == 28);
    assert(spec_poly_of_ec(28).len() == 29);
    assert(spec_total_codewords(40) == 3706);
    assert(table_consistent_at(40, ECL::M));
}

proof fn lemma_table_consistency_m(version: int)
    requires
        1 <= version <= 40,
    ensures
        table_consistent_at(version, ECL::M),
{
    if version == 1 {
        lemma_table_consistency_m_1(version);
    } else if version == 2 {
        lemma_table_consistency_m_2(version);
    } else if version == 3 {
        lemma_table_consistency_m_3(version);
    } else if version == 4 {
        lemma_table_consistency_m_4(version);
    } else if version == 5 {
        lemma_table_consistency_m_5(version);
    } else if version == 6 {
        lemma_table_consistency_m_6(version);
    } else if version == 7 {
        lemma_table_consistency_m_7(version);
    } else if version == 8 {
        lemma_table_consistency_m_8(version);
    } else if version == 9 {
        lemma_table_consistency_m_9(version);
    } else if version == 10 {
        lemma_table_consistency_m_10(version);
    } else if version == 11 {
        lemma_table_consistency_m_11(version);
    } else if version == 12 {
        lemma_table_consistency_m_12(version);
    } else if version == 13 {
        lemma_table_consistency_m_13(version);
    } else if version == 14 {
        lemma_table_consistency_m_14(version);
    } else if version == 15 {
        lemma_table_consistency_m_15(version);
    } else if version == 16 {
        lemma_table_consistency_m_16(version);
    } else if version == 17 {
        lemma_table_consistency_m_17(version);
    } else if version == 18 {
        lemma_table_consistency_m_18(version);
    } else if version == 19 {
        lemma_table_consistency_m_19(version);
    } else if version == 20 {
        lemma_table_consistency_m_20(version);
    } else if version == 21 {
        lemma_table_consistency_m_21(version);
    } else if version == 22 {
        lemma_table_consistency_m_22(version);
    } else if version == 23 {
        lemma_table_consistency_m_23(version);
    } else if version == 24 {
        lemma_table_consistency_m_24(version);
    } else if version == 25 {
        lemma_table_consistency_m_25(version);
    } else if version == 26 {
        lemma_table_consistency_m_26(version);
    } else if version == 27 {
        lemma_table_consistency_m_27(version);
    } else if version == 28 {
        lemma_table_consistency_m_28(version);
    } else if version == 29 {
        lemma_table_consistency_m_29(version);
    } else if version == 30 {
        lemma_table_consistency_m_30(version);
    } else if version == 31 {
        lemma_table_consistency_m_31(version);
    } else if version == 32 {
        lemma_table_consistency_m_32(version);
    } else if version == 33 {
        lemma_table_consistency_m_33(version);
    } else if version == 34 {
        lemma_table_consistency_m_34(version);
    } else if version == 35 {
        lemma_table_consistency_m_35(version);
    } else if version == 36 {
        lemma_table_consistency_m_36(version);
    } else if version == 37 {
        lemma_table_consistency_m_37(version);
    } else if version == 38 {
        lemma_table_consistency_m_38(version);
    } else if version == 39 {
        lemma_table_consistency_m_39(version);
    } else if version == 40 {
        lemma_table_consistency_m_40(version);
    }
}

proof fn lemma_table_consistency_q_1(version: int)
    requires
        version == 1,
    ensures
        table_consistent_at(version, ECL::Q),
{
    let g = spec_groups(1, ECL::Q);
    assert(g == ((1int, 13int), (0int, 0int)));
    assert(1int * 13int == 13int && 0int * 0int == 0int);
    assert(1int * 13int == 13int);
    assert(g.0.0 * g.0.1 + g.1.0 * g.1.1 == 13);
    assert((g.0.0 + g.1.0) * spec_ec_codewords(1, ECL::Q) == 13);
    assert(spec_data_codewords(1, ECL::Q) == 13);
    assert(spec_ec_codewords(1, ECL::Q) == 13);
    assert(spec_poly_of_ec(13).len() == 14);
    assert(spec_total_codewords(1) == 26);
    assert(table_consistent_at(1, ECL::Q));
}

proof fn lemma_table_consistency_q_2(version: int)
    requires
        version == 2,
    ensures
        table_consistent_at(version, ECL::Q),
{
    let g = spec_groups(2, ECL::Q);
    assert(g == ((1int, 22int), (0int, 0int)));
    assert(1int * 22int == 22int && 0int * 0int == 0int);
    assert(1int * 22int == 22int);
    assert(g.0.0 * g.0.1 + g.1.0 * g.1.1 == 22);
    assert((g.0.0 + g.1.0) * spec_ec_codewords(2, ECL::Q) == 22);
    assert(spec_data_codewords(2, ECL::Q) == 22);
    assert(spec_ec_codewords(2, ECL::Q) == 22);
    assert(spec_poly_of_ec(22).len() == 23);
    assert(spec_total_codewords(2) == 44);
    assert(table_consistent_at(2, ECL::Q));
}

proof fn lemma_table_consistency_q_3(version: int)
    requires
        version == 3,
    ensures
        table_consistent_at(version, ECL::Q),
{
    let g = spec_groups(3, ECL::Q);
    assert(g == ((2int, 17int), (0int, 0int)));
    assert(2int * 17int == 34int && 0int * 0int == 0int);
    assert(2int * 18int == 36int);
    assert(g.0.0 * g.0.1 + g.1.0 * g.1.1 == 34);
    assert((g.0.0 + g.1.0) * spec_ec_codewords(3, ECL::Q) == 36);
    assert(spec_data_codewords(3, ECL::Q) == 34);
    assert(spec_ec_codewords(3, ECL::Q) == 18);
    assert(spec_poly_of_ec(18).len() == 19);
    assert(spec_total_codewords(3) == 70);
    assert(table_consistent_at(3, ECL::Q));
}

proof fn lemma_table_consistency_q_4(version: int)
    requires
        version == 4,
    ensures
        table_consistent_at(version, ECL::Q),
{
    let g = spec_groups(4, ECL::Q);
    assert(g == ((2int, 24int), (0int, 0int)));
    assert(2int * 24int == 48int && 0int * 0int == 0int);
    assert(2int * 26int == 52int);
    assert(g.0.0 * g.0.1 + g.1.0 * g.1.1 == 48);
    assert((g.0.0 + g.1.0) * spec_ec_codewords(4, ECL::Q) == 52);
    assert(spec_data_codewords(4, ECL::Q) == 48);
    assert(spec_ec_codewords(4, ECL::Q) == 26);
    assert(spec_poly_of_ec(26).len() == 27);
    assert(spec_total_codewords(4) == 100);
    assert(table_consistent_at(4, ECL::Q));
}

proof fn lemma_table_consistency_q_5(version: int)
    requires
        version == 5,
    ensures
        table_consistent_at(version, ECL::Q),
{
    let g = spec_groups(5, ECL::Q);
    assert(g == ((2int, 15int), (2int, 16int)));
    assert(2int * 15int == 30int && 2int * 16int == 32int);
    assert(4int * 18int == 72int);
    assert(g.0.0 * g.0.1 + g.1.0 * g.1.1 == 62);
    assert((g.0.0 + g.1.0) * spec_ec_codewords(5, ECL::Q) == 72);
    assert(spec_data_codewords(5, ECL::Q) == 62);
    assert(spec_ec_codewords(5, ECL::Q) == 18);
    assert(spec_poly_of_ec(18).len() == 19);
    assert(spec_total_codewords(5) == 134);
    assert(table_consistent_at(5, ECL::Q));
}

proof fn lemma_table_consistency_q_6(version: int)
    requires
        version == 6,
    ensures
        table_consistent_at(version, ECL::Q),
{
    let g = spec_groups(6, ECL::Q);
    assert(g == ((4int, 19int), (0int, 0int)));
    assert(4int * 19int == 76int && 0int * 0int == 0int);
    assert(4int * 24int == 96int);
    assert(g.0.0 * g.0.1 + g.1.0 * g.1.1 == 76);
    assert((g.0.0 + g.1.0) * spec_ec_codewords(6, ECL::Q) == 96);
    assert(spec_data_codewords(6, ECL::Q) == 76);
    assert(spec_ec_codewords(6, ECL::Q) == 24);
    assert(spec_poly_of_ec(24).len() == 25);
    assert(spec_total_codewords(6) == 172);
    assert(table_consistent_at(6, ECL::Q));
}

proof fn lemma_table_consistency_q_7(version: int)
    requires
        version == 7,
    ensures
        table_consistent_at(version, ECL::Q),
{
    let g = spec_groups(7, ECL::Q);
    assert(g == ((2int, 14int), (4int, 15int)));
    assert(2int * 14int == 28int && 4int * 15int == 60int);
    assert(6int * 18int == 108int);
    assert(g.0.0 * g.0.1 + g.1.0 * g.1.1 == 88);
    assert((g.0.0 + g.1.0) * spec_ec_codewords(7, ECL::Q) == 108);
    assert(spec_data_codewords(7, ECL::Q) == 88);
    assert(spec_ec_codewords(7, ECL::Q) == 18);
    assert(spec_poly_of_ec(18).len() == 19);
    assert(spec_total_codewords(7) == 196);
    assert(table_consistent_at(7, ECL::Q));
}

proof fn lemma_table_consistency_q_8(version: int)
    requires
        version == 8,
    ensures
        table_consistent_at(version, ECL::Q),
{
    let g = spec_groups(8, ECL::Q);
    assert(g == ((4int, 18int), (2int, 19int)));
    assert(4int * 18int == 72int && 2int * 19int == 38int);
    assert(6int * 22int == 132int);
    assert(g.0.0 * g.0.1 + g.1.0 * g.1.1 == 110);
    assert((g.0.0 + g.1.0) * spec_ec_codewords(8, ECL::Q) == 132);
    assert(spec_data_codewords(8, ECL::Q) == 110);
    assert(spec_ec_codewords(8, ECL::Q) == 22);
    assert(spec_poly_of_ec(22).len() == 23);
    assert(spec_total_codewords(8) == 242);
    assert(table_consistent_at(8, ECL::Q));
}

proof fn lemma_table_consistency_q_9(version: int)
    requires
        version == 9,
    ensures
        table_consistent_at(version, ECL::Q),
{
    let g = spec_groups(9, ECL::Q);
    assert(g == ((4int, 16int), (4int, 17int)));
    assert(4int * 16int == 64int && 4int * 17int == 68int);
    assert(8int * 20int == 160int);
    assert(g.0.0 * g.0.1 + g.1.0 * g.1.1 == 132);
    assert((g.0.0 + g.1.0) * spec_ec_codewords(9, ECL::Q) == 160);
    assert(spec_data_codewords(9, ECL::Q) == 132);
    assert(spec_ec_codewords(9, ECL::Q) == 20);
    assert(spec_poly_of_ec(20).len() == 21);
    assert(spec_total_codewords(9) == 292);
    assert(table_consistent_at(9, ECL::Q));
}

proof fn lemma_table_consistency_q_10(version: int)
    requires
        version == 10,
    ensures
        table_consistent_at(version, ECL::Q),
{
    let g = spec_groups(10, ECL::Q);
    assert(g == ((6int, 19int), (2int, 20int)));
    assert(6int * 19int == 114int && 2int * 20int == 40int);
    assert(8int * 24int == 192int);
    assert(g.0.0 * g.0.1 + g.1.0 * g.1.1 == 154);
    assert((g.0.0 + g.1.0) * spec_ec_codewords(10, ECL::Q) == 192);
    assert(spec_data_codewords(10, ECL::Q) == 154);
    assert(spec_ec_codewords(10, ECL::Q) == 24);
    assert(spec_poly_of_ec(24).len() == 25);
    assert(spec_total_codewords(10) == 346);
    assert(table_consistent_at(10, ECL::Q));
}

proof fn lemma_table_consistency_q_11(version: int)
    requires
        version == 11,
    ensures
        table_consistent_at(version, ECL::Q),
{
    let g = spec_groups(11, ECL::Q);
    assert(g == ((4int, 22int), (4int, 23int)));
    assert(4int * 22int == 88int && 4int * 23int == 92int);
    assert(8int * 28int == 224int);
    assert(g.0.0 * g.0.1 + g.1.0 * g.1.1 == 180);
    assert((g.0.0 + g.1.0) * spec_ec_codewords(11, ECL::Q) == 224);
    assert(spec_data_codewords(11, ECL::Q) == 180);
    assert(spec_ec_codewords(11, ECL::Q) == 28);
    assert(spec_poly_of_ec(28).len() == 29);
    assert(spec_total_codewords(11) == 404);
    assert(table_consistent_at(11, ECL::Q));
}

proof fn lemma_table_consistency_q_12(version: int)
    requires
        version == 12,
    ensures
        table_consistent_at(version, ECL::Q),
{
    let g = spec_groups(12, ECL::Q);
    assert(g == ((4int, 20int), (6int, 21int)));
    assert(4int * 20int == 80int && 6int * 21int == 126int);
    assert(10int * 26int == 260int);
    assert(g.0.0 * g.0.1 + g.1.0 * g.1.1 == 206);
    assert((g.0.0 + g.1.0) * spec_ec_codewords(12, ECL::Q) == 260);
    assert(spec_data_codewords(12, ECL::Q) == 206);
    assert(spec_ec_codewords(12, ECL::Q) == 26);
    assert(spec_poly_of_ec(26).len() == 27);
    assert(spec_total_codewords(12) == 466);
    assert(table_consistent_at(12, ECL::Q));
}

proof fn lemma_table_consistency_q_13(version: int)
    requires
        version == 13,
    ensures
        table_consistent_at(version, ECL::Q),
{
    let g = spec_groups(13, ECL::Q);
    assert(g == ((8int, 20int), (4int, 21int)));
    assert(8int * 20int == 160int && 4int * 21int == 84int);
    assert(12int * 24int == 288int);
    assert(g.0.0 * g.0.1 + g.1.0 * g.1.1 == 244);
    assert((g.0.0 + g.1.0) * spec_ec_codewords(13, ECL::Q) == 288);
    assert(spec_data_codewords(13, ECL::Q) == 244);
    assert(spec_ec_codewords(13, ECL::Q) == 24);
    assert(spec_poly_of_ec(24).len() == 25);
    assert(spec_total_codewords(13) == 532);
    assert(table_consistent_at(13, ECL::Q));
}

proof fn lemma_table_consistency_q_14(version: int)
    requires
        version == 14,
    ensures
        table_consistent_at(version, ECL::Q),
{
    let g = spec_groups(14, ECL::Q);
    assert(g == ((11int, 16int), (5int, 17int)));
    assert(11int * 16int == 176int && 5int * 17int == 85int);
    assert(16int * 20int == 320int);
    assert(g.0.0 * g.0.1 + g.1.0 * g.1.1 == 261);
    assert((g.0.0 + g.1.0) * spec_ec_codewords(14, ECL::Q) == 320);
    assert(spec_data_codewords(14, ECL::Q) == 261);
    assert(spec_ec_codewords(14, ECL::Q) == 20);
    assert(spec_poly_of_ec(20).len() == 21);
    assert(spec_total_codewords(14) == 581);
    assert(table_consistent_at(14, ECL::Q));
}

proof fn lemma_table_consistency_q_15(version: int)
    requires
        version == 15,
    ensures
        table_consistent_at(version, ECL::Q),
{
    let g = spec_groups(15, ECL::Q);
    assert(g == ((5int, 24int), (7int, 25int)));
    assert(5int * 24int == 120int && 7int * 25int == 175int);
    assert(12int * 30int == 360int);
    assert(g.0.0 * g.0.1 + g.1.0 * g.1.1 == 295);
    assert((g.0.0 + g.1.0) * spec_ec_codewords(15, ECL::Q) == 360);
    assert(spec_data_codewords(15, ECL::Q) == 295);
    assert(spec_ec_codewords(15, ECL::Q) == 30);
    assert(spec_poly_of_ec(30).len() == 31);
    assert(spec_total_codewords(15) == 655);
    assert(table_consistent_at(15, ECL::Q));
}

proof fn lemma_table_consistency_q_16(version: int)
    requires
        version == 16,
    ensures
        table_consistent_at(version, ECL::Q),
{
    let g = spec_groups(16, ECL::Q);
    assert(g == ((15int, 19int), (2int, 20int)));
    assert(15int * 19int == 285int && 2int * 20int == 40int);
    assert(17int * 24int == 408int);
    assert(g.0.0 * g.0.1 + g.1.0 * g.1.1 == 325);
    assert((g.0.0 + g.1.0) * spec_ec_codewords(16, ECL::Q) == 408);
    assert(spec_data_codewords(16, ECL::Q) == 325);
    assert(spec_ec_codewords(16, ECL::Q) == 24);
    assert(spec_poly_of_ec(24).len() == 25);
    assert(spec_total_codewords(16) == 733);
    assert(table_consistent_at(16, ECL::Q));
}

proof fn lemma_table_consistency_q_17(version: int)
    requires
        version == 17,
    ensures
        table_consistent_at(version, ECL::Q),
{
    let g = spec_groups(17, ECL::Q);
    assert(g == ((1int, 22int), (15int, 23int)));
    assert(1int * 22int == 22int && 15int * 23int == 345int);
    assert(16int * 28int == 448int);
    assert(g.0.0 * g.0.1 + g.1.0 * g.1.1 == 367);
    assert((g.0.0 + g.1.0) * spec_ec_codewords(17, ECL::Q) == 448);
    assert(spec_data_codewords(17, ECL::Q) == 367);
    assert(spec_ec_codewords(17, ECL::Q) == 28);
    assert(spec_poly_of_ec(28).len() == 29);
    assert(spec_total_codewords(17) == 815);
    assert(table_consistent_at(17, ECL::Q));
}

proof fn lemma_table_consistency_q_18(version: int)
    requires
        version == 18,
    ensures
        table_consistent_at(version, ECL::Q),
{
    let g = spec_groups(18, ECL::Q);
    assert(g == ((17int, 22int), (1int, 23int)));
    assert(17int * 22int == 374int && 1int * 23int == 23int);
    assert(18int * 28int == 504int);
    assert(g.0.0 * g.0.1 + g.1.0 * g.1.1 == 397);
    assert((g.0.0 + g.1.0) * spec_ec_codewords(18, ECL::Q) == 504);
    assert(spec_data_codewords(18, ECL::Q) == 397);
    assert(spec_ec_codewords(18, ECL::Q) == 28);
    assert(spec_poly_of_ec(28).len() == 29);
    assert(spec_total_codewords(18) == 901);
    assert(table_consistent_at(18, ECL::Q));
}

proof fn lemma_table_consistency_q_19(version: int)
    requires
        version == 19,
    ensures
        table_consistent_at(version, ECL::Q),
{
    let g = spec_groups(19, ECL::Q);
    assert(g == ((17int, 21int), (4int, 22int)));
    assert(17int * 21int == 357int && 4int * 22int == 88int);
    assert(21int * 26int == 546int);
    assert(g.0.0 * g.0.1 + g.1.0 * g.1.1 == 445);
    assert((g.0.0 + g.1.0) * spec_ec_codewords(19, ECL::Q) == 546);
    assert(spec_data_codewords(19, ECL::Q) == 445);
    assert(spec_ec_codewords(19, ECL::Q) == 26);
    assert(spec_poly_of_ec(26).len() == 27);
    assert(spec_total_codewords(19) == 991);
    assert(table_consistent_at(19, ECL::Q));
}

proof fn lemma_table_consistency_q_20(version: int)
    requires
        version == 20,
    ensures
        table_consistent_at(version, ECL::Q),
{
    let g = spec_groups(20, ECL::Q);
    assert(g == ((15int, 24int), (5int, 25int)));
    assert(15int * 24int == 360int && 5int * 25int == 125int);
    assert(20int * 30int == 600int);
    assert(g.0.0 * g.0.1 + g.1.0 * g.1.1 == 485);
    assert((g.0.0 + g.1.0) * spec_ec_codewords(20, ECL::Q) == 600);
    assert(spec_data_codewords(20, ECL::Q) == 485);
    assert(spec_ec_codewords(20, ECL::Q) == 30);
    assert(spec_poly_of_ec(30).len() == 31);
    assert(spec_total_codewords(20) == 1085);
    assert(table_consistent_at(20, ECL::Q));
}

proof fn lemma_table_consistency_q_21(version: int)
    requires
        version == 21,
    ensures
        table_consistent_at(version, ECL::Q),
{
    let g = spec_groups(21, ECL::Q);
    assert(g == ((17int, 22int), (6int, 23int)));
    assert(17int * 22int == 374int && 6int * 23int == 138int);
    assert(23int * 28int == 644int);
    assert(g.0.0 * g.0.1 + g.1.0 * g.1.1 == 512);
    assert((g.0.0 + g.1.0) * spec_ec_codewords(21, ECL::Q) == 644);
    assert(spec_data_codewords(21, ECL::Q) == 512);
    assert(spec_ec_codewords(21, ECL::Q) == 28);
    assert(spec_poly_of_ec(28).len() == 29);
    assert(spec_total_codewords(21) == 1156);
    assert(table_consistent_at(21, ECL::Q));
}

proof fn lemma_table_consistency_q_22(version: int)
    requires
        version == 22,
    ensures
        table_consistent_at(version, ECL::Q),
{
    let g = spec_groups(22, ECL::Q);
    assert(g == ((7int, 24int), (16int, 25int)));
    assert(7int * 24int == 168int && 16int * 25int == 400int);
    assert(23int * 30int == 690int);
    assert(g.0.0 * g.0.1 + g.1.0 * g.1.1 == 568);
    assert((g.0.0 + g.1.0) * spec_ec_codewords(22, ECL::Q) == 690);
    assert(spec_data_codewords(22, ECL::Q) == 568);
    assert(spec_ec_codewords(22, ECL::Q) == 30);
    assert(spec_poly_of_ec(30).len() == 31);
    assert(spec_total_codewords(22) == 1258);
    assert(table_consistent_at(22, ECL::Q));
}

proof fn lemma_table_consistency_q_23(version: int)
    requires
        version == 23,
    ensures
        table_consistent_at(version, ECL::Q),
{
    let g = spec_groups(23, ECL::Q);
    assert(g == ((11int, 24int), (14int, 25int)));
    assert(11int * 24int == 264int && 14int * 25int == 350int);
    assert(25int * 30int == 750int);
    assert(g.0.0 * g.0.1 + g.1.0 * g.1.1 == 614);
    assert((g.0.0 + g.1.0) * spec_ec_codewords(23, ECL::Q) == 750);
    assert(spec_data_codewords(23, ECL::Q) == 614);
    assert(spec_ec_codewords(23, ECL::Q) == 30);
    assert(spec_poly_of_ec(30).len() == 31);
    assert(spec_total_codewords(23) == 1364);
    assert(table_consistent_at(23, ECL::Q));
}

proof fn lemma_table_consistency_q_24(version: int)
    requires
        version == 24,
    ensures
        table_consistent_at(version, ECL::Q),
{
    let g = spec_groups(24, ECL::Q);
    assert(g == ((11int, 24int), (16int, 25int)));
    assert(11int * 24int == 264int && 16int * 25int == 400int);
    assert(27int * 30int == 810int);
    assert(g.0.0 * g.0.1 + g.1.0 * g.1.1 == 664);
    assert((g.0.0 + g.1.0) * spec_ec_codewords(24, ECL::Q) == 810);
    assert(spec_data_codewords(24, ECL::Q) == 664);
    assert(spec_ec_codewords(24, ECL::Q) == 30);
    assert(spec_poly_of_ec(30).len() == 31);
    assert(spec_total_codewords(24) == 1474);
    assert(table_consistent_at(24, ECL::Q));
}

proof fn lemma_table_consistency_q_25(version: int)
    requires
        version == 25,
    ensures
        table_consistent_at(version, ECL::Q),
{
    let g = spec_groups(25, ECL::Q);
    assert(g == ((7int, 24int), (22int, 25int)));
    assert(7int * 24int == 168int && 22int * 25int == 550int);
    assert(29int * 30int == 870int);
    assert(g.0.0 * g.0.1 + g.1.0 * g.1.1 == 718);
    assert((g.0.0 + g.1.0) * spec_ec_codewords(25, ECL::Q) == 870);
    assert(spec_data_codewords(25, ECL::Q) == 718);
    assert(spec_ec_codewords(25, ECL::Q) == 30);
    assert(spec_poly_of_ec(30).len() == 31);
    assert(spec_total_codewords(25) == 1588);
    assert(table_consistent_at(25, ECL::Q));
}

proof fn lemma_table_consistency_q_26(version: int)
    requires
        version == 26,
    ensures
        table_consistent_at(version, ECL::Q),
{
    let g = spec_groups(26, ECL::Q);
    assert(g == ((28int, 22int), (6int, 23int)));
    assert(28int * 22int == 616int && 6int * 23int == 138int);
    assert(34int * 28int == 952int);
    assert(g.0.0 * g.0.1 + g.1.0 * g.1.1 == 754);
    assert((g.0.0 + g.1.0) * spec_ec_codewords(26, ECL::Q) == 952);
    assert(spec_data_codewords(26, ECL::Q) == 754);
    assert(spec_ec_codewords(26, ECL::Q) == 28);
    assert(spec_poly_of_ec(28).len() == 29);
    assert(spec_total_codewords(26) == 1706);
    assert(table_consistent_at(26, ECL::Q));
}

proof fn lemma_table_consistency_q_27(version: int)
    requires
        version == 27,
    ensures
        table_consistent_at(version, ECL::Q),
{
    let g = spec_groups(27, ECL::Q);
    assert(g == ((8int, 23int), (26int, 24int)));
    assert(8int * 23int == 184int && 26int * 24int == 624int);
    assert(34int * 30int == 1020int);
    assert(g.0.0 * g.0.1 + g.1.0 * g.1.1 == 808);
    assert((g.0.0 + g.1.0) * spec_ec_codewords(27, ECL::Q) == 1020);
    assert(spec_data_codewords(27, ECL::Q) == 808);
    assert(spec_ec_codewords(27, ECL::Q) == 30);
    assert(spec_poly_of_ec(30).len() == 31);
    assert(spec_total_codewords(27) == 1828);
    assert(table_consistent_at(27, ECL::Q));
}

proof fn lemma_table_consistency_q_28(version: int)
    requires
        version == 28,
    ensures
        table_consistent_at(version, ECL::Q),
{
    let g = spec_groups(28, ECL::Q);
    assert(g == ((4int, 24int), (31int, 25int)));
    assert(4int * 24int == 96int && 31int * 25int == 775int);
    assert(35int * 30int == 1050int);
    assert(g.0.0 * g.0.1 + g.1.0 * g.1.1 == 871);
    assert((g.0.0 + g.1.0) * spec_ec_codewords(28, ECL::Q) == 1050);
    assert(spec_data_codewords(28, ECL::Q) == 871);
    assert(spec_ec_codewords(28, ECL::Q) == 30);
    assert(spec_poly_of_ec(30).len() == 31);
    assert(spec_total_codewords(28) == 1921);
    assert(table_consistent_at(28, ECL::Q));
}

proof fn lemma_table_consistency_q_29(version: int)
    requires
        version == 29,
    ensures
        table_consistent_at(version, ECL::Q),
{
    let g = spec_groups(29, ECL::Q);
    assert(g == ((1int, 23int), (37int, 24int)));
    assert(1int * 23int == 23int && 37int * 24int == 888int);
    assert(38int * 30int == 1140int);
    assert(g.0.0 * g.0.1 + g.1.0 * g.1.1 == 911);
    assert((g.0.0 + g.1.0) * spec_ec_codewords(29, ECL::Q) == 1140);
    assert(spec_data_codewords(29, ECL::Q) == 911);
    assert(spec_ec_codewords(29, ECL::Q) == 30);
    assert(spec_poly_of_ec(30).len() == 31);
    assert(spec_total_codewords(29) == 2051);
    assert(table_consistent_at(29, ECL::Q));
}

proof fn lemma_table_consistency_q_30(version: int)
    requires
        version == 30,
    ensures
        table_consistent_at(version, ECL::Q),
{
    let g = spec_groups(30, ECL::Q);
    assert(g == ((15int, 24int), (25int, 25int)));
    assert(15int * 24int == 360int && 25int * 25int == 625int);
    assert(40int * 30int == 1200int);
    assert(g.0.0 * g.0.1 + g.1.0 * g.1.1 == 985);
    assert((g.0.0 + g.1.0) * spec_ec_codewords(30, ECL::Q) == 1200);
    assert(spec_data_codewords(30, ECL::Q) == 985);
    assert(spec_ec_codewords(30, ECL::Q) == 30);
    assert(spec_poly_of_ec(30).len() == 31);
    assert(spec_total_codewords(30) == 2185);
    assert(table_consistent_at(30, ECL::Q));
}

proof fn lemma_table_consistency_q_31(version: int)
    requires
        version == 31,
    ensures
        table_consistent_at(version, ECL::Q),
{
    let g = spec_groups(31, ECL::Q);
    assert(g == ((42int, 24int), (1int, 25int)));
    assert(42int * 24int == 1008int && 1int * 25int == 25int);
    assert(43int * 30int == 1290int);
    assert(g.0.0 * g.0.1 + g.1.0 * g.1.1 == 1033);
    assert((g.0.0 + g.1.0) * spec_ec_codewords(31, ECL::Q) == 1290);
    assert(spec_data_codewords(31, ECL::Q) == 1033);
    assert(spec_ec_codewords(31, ECL::Q) == 30);
    assert(spec_poly_of_ec(30).len() == 31);
    assert(spec_total_codewords(31) == 2323);
    assert(table_consistent_at(31, ECL::Q));
}

proof fn lemma_table_consistency_q_32(version: int)
    requires
        version == 32,
    ensures
        table_consistent_at(version, ECL::Q),
{
    let g = spec_groups(32, ECL::Q);
    assert(g == ((10int, 24int), (35int, 25int)));
    assert(10int * 24int == 240int && 35int * 25int == 875int);
    assert(45int * 30int == 1350int);
    assert(g.0.0 * g.0.1 + g.1.0 * g.1.1 == 1115);
    assert((g.0.0 + g.1.0) * spec_ec_codewords(32, ECL::Q) == 1350);
    assert(spec_data_codewords(32, ECL::Q) == 1115);
    assert(spec_ec_codewords(32, ECL::Q) == 30);
    assert(spec_poly_of_ec(30).len() == 31);
    assert(spec_total_codewords(32) == 2465);
    assert(table_consistent_at(32, ECL::Q));
}

proof fn lemma_table_consistency_q_33(version: int)
    requires
        version == 33,
    ensures
        table_consistent_at(version, ECL::Q),
{
    let g = spec_groups(33, ECL::Q);
    assert(g == ((29int, 24int), (19int, 25int)));
    assert(29int * 24int == 696int && 19int * 25int == 475int);
    assert(48int * 30int == 1440int);
    assert(g.0.0 * g.0.1 + g.1.0 * g.1.1 == 1171);
    assert((g.0.0 + g.1.0) * spec_ec_codewords(33, ECL::Q) == 1440);
    assert(spec_data_codewords(33, ECL::Q) == 1171);
    assert(spec_ec_codewords(33, ECL::Q) == 30);
    assert(spec_poly_of_ec(30).len() == 31);
    assert(spec_total_codewords(33) == 2611);
    assert(table_consistent_at(33, ECL::Q));
}

proof fn lemma_table_consistency_q_34(version: int)
    requires
        version == 34,
    ensures
        table_consistent_at(version, ECL::Q),
{
    let g = spec_groups(34, ECL::Q);
    assert(g == ((44int, 24int), (7int, 25int)));
    assert(44int * 24int == 1056int && 7int * 25int == 175int);
    assert(51int * 30int == 1530int);
    assert(g.0.0 * g.0.1 + g.1.0 * g.1.1 == 1231);
    assert((g.0.0 + g.1.0) * spec_ec_codewords(34, ECL::Q) == 1530);
    assert(spec_data_codewords(34, ECL::Q) == 1231);
    assert(spec_ec_codewords(34, ECL::Q) == 30);
    assert(spec_poly_of_ec(30).len() == 31);
    assert(spec_total_codewords(34) == 2761);
    assert(table_consistent_at(34, ECL::Q));
}

proof fn lemma_table_consistency_q_35(version: int)
    requires
        version == 35,
    ensures
        table_consistent_at(version, ECL::Q),
{
    let g = spec_groups(35, ECL::Q);
    assert(g == ((39int, 24int), (14int, 25int)));
    assert(39int * 24int == 936int && 14int * 25int == 350int);
    assert(53int * 30int == 1590int);
    assert(g.0.0 * g.0.1 + g.1.0 * g.1.1 == 1286);
    assert((g.0.0 + g.1.0) * spec_ec_codewords(35, ECL::Q) == 1590);
    assert(spec_data_codewords(35, ECL::Q) == 1286);
    assert(spec_ec_codewords(35, ECL::Q) == 30);
    assert(spec_poly_of_ec(30).len() == 31);
    assert(spec_total_codewords(35) == 2876);
    assert(table_consistent_at(35, ECL::Q));
}

proof fn lemma_table_consistency_q_36(version: int)
    requires
        version == 36,
    ensures
        table_consistent_at(version, ECL::Q),
{
    let g = spec_groups(36, ECL::Q);
    assert(g == ((46int, 24int), (10int, 25int)));
    assert(46int * 24int == 1104int && 10int * 25int == 250int);
    assert(56int * 30int == 1680int);
    assert(g.0.0 * g.0.1 + g.1.0 * g.1.1 == 1354);
    assert((g.0.0 + g.1.0) * spec_ec_codewords(36, ECL::Q) == 1680);
    assert(spec_data_codewords(36, ECL::Q) == 1354);
    assert(spec_ec_codewords(36, ECL::Q) == 30);
    assert(spec_poly_of_ec(30).len() == 31);
    assert(spec_total_codewords(36) == 3034);
    assert(table_consistent_at(36, ECL::Q));
}

proof fn lemma_table_consistency_q_37(version: int)
    requires
        version == 37,
    ensures
        table_consistent_at(version, ECL::Q),
{
    let g = spec_groups(37, ECL::Q);
    assert(g == ((49int, 24int), (10int, 25int)));
    assert(49int * 24int == 1176int && 10int * 25int == 250int);
    assert(59int * 30int == 1770int);
    assert(g.0.0 * g.0.1 + g.1.0 * g.1.1 == 1426);
    assert((g.0.0 + g.1.0) * spec_ec_codewords(37, ECL::Q) == 1770);
    assert(spec_data_codewords(37, ECL::Q) == 1426);
    assert(spec_ec_codewords(37, ECL::Q) == 30);
    assert(spec_poly_of_ec(30).len() == 31);
    assert(spec_total_codewords(37) == 3196);
    assert(table_consistent_at(37, ECL::Q));
}

proof fn lemma_table_consistency_q_38(version: int)
    requires
        version == 38,
    ensures
        table_consistent_at(version, ECL::Q),
{
    let g = spec_groups(38, ECL::Q);
    assert(g == ((48int, 24int), (14int, 25int)));
    assert(48int * 24int == 1152int && 14int * 25int == 350int);
    assert(62int * 30int == 1860int);
    assert(g.0.0 * g.0.1 + g.1.0 * g.1.1 == 1502);
    assert((g.0.0 + g.1.0) * spec_ec_codewords(38, ECL::Q) == 1860);
    assert(spec_data_codewords(38, ECL::Q) == 1502);
    assert(spec_ec_codewords(38, ECL::Q) == 30);
    assert(spec_poly_of_ec(30).len() == 31);
    assert(spec_total_codewords(38) == 3362);
    assert(table_consistent_at(38, ECL::Q));
}

proof fn lemma_table_consistency_q_39(version: int)
    requires
        version == 39,
    ensures
        table_consistent_at(version, ECL::Q),
{
    let g = spec_groups(39, ECL::Q);
    assert(g == ((43int, 24int), (22int, 25int)));
    assert(43int * 24int == 1032int && 22int * 25int == 550int);
    assert(65int * 30int == 1950int);
    assert(g.0.0 * g.0.1 + g.1.0 * g.1.1 == 1582);
    assert((g.0.0 + g.1.0) * spec_ec_codewords(39, ECL::Q) == 1950);
    assert(spec_data_codewords(39, ECL::Q) == 1582);
    assert(spec_ec_codewords(39, ECL::Q) == 30);
    assert(spec_poly_of_ec(30).len() == 31);
    assert(spec_total_codewords(39) == 3532);
    assert(table_consistent_at(39, ECL::Q));
}

proof fn lemma_table_consistency_q_40(version: int)
    requires
        version == 40,
    ensures
        table_consistent_at(version, ECL::Q),
{
    let g = spec_groups(40, ECL::Q);
    assert(g == ((34int, 24int), (34int, 25int)));
    assert(34int * 24int == 816int && 34int * 25int == 850int);
    assert(68int * 30int == 2040int);
    assert(g.0.0 * g.0.1 + g.1.0 * g.1.1 == 1666);
    assert((g.0.0 + g.1.0) * spec_ec_codewords(40, ECL::Q) == 2040);
    assert(spec_data_codewords(40, ECL::Q) == 1666);
    assert(spec_ec_codewords(40, ECL::Q) == 30);
    assert(spec_poly_of_ec(30).len() == 31);
    assert(spec_total_codewords(40) == 3706);
    assert(table_consistent_at(40, ECL::Q));
}

proof fn lemma_table_consistency_q(version: int)
    requires
        1 <= version <= 40,
    ensures
        table_consistent_at(version, ECL::Q),
{
    if version == 1 {
        lemma_table_consistency_q_1(version);
    } else if version == 2 {
        lemma_table_consistency_q_2(version);
    } else if version == 3 {
        lemma_table_consistency_q_3(version);
    } else if version == 4 {
        lemma_table_consistency_q_4(version);
    } else if version == 5 {
        lemma_table_consistency_q_5(version);
    } else if version == 6 {
        lemma_table_consistency_q_6(version);
    } else if version == 7 {
        lemma_table_consistency_q_7(version);
    } else if version == 8 {
        lemma_table_consistency_q_8(version);
    } else if version == 9 {
        lemma_table_consistency_q_9(version);
    } else if version == 10 {
        lemma_table_consistency_q_10(version);
    } else if version == 11 {
        lemma_table_consistency_q_11(version);
    } else if version == 12 {
        lemma_table_consistency_q_12(version);
    } else if version == 13 {
        lemma_table_consistency_q_13(version);
    } else if version == 14 {
        lemma_table_consistency_q_14(version);
    } else if version == 15 {
        lemma_table_consistency_q_15(version);
    } else if version == 16 {
        lemma_table_consistency_q_16(version);
    } else if version == 17 {
        lemma_table_consistency_q_17(version);
    } else if version == 18 {
        lemma_table_consistency_q_18(version);
    } else if version == 19 {
        lemma_table_consistency_q_19(version);
    } else if version == 20 {
        lemma_table_consistency_q_20(version);
    } else if version == 21 {
        lemma_table_consistency_q_21(version);
    } else if version == 22 {
        lemma_table_consistency_q_22(version);
    } else if version == 23 {
        lemma_table_consistency_q_23(version);
    } else if version == 24 {
        lemma_table_consistency_q_24(version);
    } else if version == 25 {
        lemma_table_consistency_q_25(version);
    } else if version == 26 {
        lemma_table_consistency_q_26(version);
    } else if version == 27 {
        lemma_table_consistency_q_27(version);
    } else if version == 28 {
        lemma_table_consistency_q_28(version);
    } else if version == 29 {
        lemma_table_consistency_q_29(version);
    } else if version == 30 {
        lemma_table_consistency_q_30(version);
    } else if version == 31 {
        lemma_table_consistency_q_31(version);
    } else if version == 32 {
        lemma_table_consistency_q_32(version);
    } else if version == 33 {
        lemma_table_consistency_q_33(version);
    } else if version == 34 {
        lemma_table_consistency_q_34(version);
    } else if version == 35 {
        lemma_table_consistency_q_35(version);
    } else if version == 36 {
        lemma_table_consistency_q_36(version);
    } else if version == 37 {
        lemma_table_consistency_q_37(version);
    } else if version == 38 {
        lemma_table_consistency_q_38(version);
    } else if version == 39 {
        lemma_table_consistency_q_39(version);
    } else if version == 40 {
        lemma_table_consistency_q_40(version);
    }
}

proof fn lemma_table_consistency_h_1(version: int)
    requires
        version == 1,
    ensures
        table_consistent_at(version, ECL::H),
{
    let g = spec_groups(1, ECL::H);
    assert(g == ((1int, 9int), (0int, 0int)));
    assert(1int * 9int == 9int && 0int * 0int == 0int);
    assert(1int * 17int == 17int);
    assert(g.0.0 * g.0.1 + g.1.0 * g.1.1 == 9);
    assert((g.0.0 + g.1.0) * spec_ec_codewords(1, ECL::H) == 17);
    assert(spec_data_codewords(1, ECL::H) == 9);
    assert(spec_ec_codewords(1, ECL::H) == 17);
    assert(spec_poly_of_ec(17).len() == 18);
    assert(spec_total_codewords(1) == 26);
    assert(table_consistent_at(1, ECL::H));
}

proof fn lemma_table_consistency_h_2(version: int)
    requires
        version == 2,
    ensures
        table_consistent_at(version, ECL::H),
{
    let g = spec_groups(2, ECL::H);
    assert(g == ((1int, 16int), (0int, 0int)));
    assert(1int * 16int == 16int && 0int * 0int == 0int);
    assert(1int * 28int == 28int);
    assert(g.0.0 * g.0.1 + g.1.0 * g.1.1 == 16);
    assert((g.0.0 + g.1.0) * spec_ec_codewords(2, ECL::H) == 28);
    assert(spec_data_codewords(2, ECL::H) == 16);
    assert(spec_ec_codewords(2, ECL::H) == 28);
    assert(spec_poly_of_ec(28).len() == 29);
    assert(spec_total_codewords(2) == 44);
    assert(table_consistent_at(2, ECL::H));
}

proof fn lemma_table_consistency_h_3(version: int)
    requires
        version == 3,
    ensures
        table_consistent_at(version, ECL::H),
{
    let g = spec_groups(3, ECL::H);
    assert(g == ((2int, 13int), (0int, 0int)));
    assert(2int * 13int == 26int && 0int * 0int == 0int);
    assert(2int * 22int == 44int);
    assert(g.0.0 * g.0.1 + g.1.0 * g.1.1 == 26);
    assert((g.0.0 + g.1.0) * spec_ec_codewords(3, ECL::H) == 44);
    assert(spec_data_codewords(3, ECL::H) == 26);
    assert(spec_ec_codewords(3, ECL::H) == 22);
    assert(spec_poly_of_ec(22).len() == 23);
    assert(spec_total_codewords(3) == 70);
    assert(table_consistent_at(3, ECL::H));
}

proof fn lemma_table_consistency_h_4(version: int)
    requires
        version == 4,
    ensures
        table_consistent_at(version, ECL::H),
{
    let g = spec_groups(4, ECL::H);
    assert(g == ((4int, 9int), (0int, 0int)));
    assert(4int * 9int == 36int && 0int * 0int == 0int);
    assert(4int * 16int == 64int);
    assert(g.0.0 * g.0.1 + g.1.0 * g.1.1 == 36);
    assert((g.0.0 + g.1.0) * spec_ec_codewords(4, ECL::H) == 64);
    assert(spec_data_codewords(4, ECL::H) == 36);
    assert(spec_ec_codewords(4, ECL::H) == 16);
    assert(spec_poly_of_ec(16).len() == 17);
    assert(spec_total_codewords(4) == 100);
    assert(table_consistent_at(4, ECL::H));
}

proof fn lemma_table_consistency_h_5(version: int)
    requires
        version == 5,
    ensures
        table_consistent_at(version, ECL::H),
{
    let g = spec_groups(5, ECL::H);
    assert(g == ((2int, 11int), (2int, 12int)));
    assert(2int * 11int == 22int && 2int * 12int == 24int);
    assert(4int * 22int == 88int);
    assert(g.0.0 * g.0.1 + g.1.0 * g.1.1 == 46);
    assert((g.0.0 + g.1.0) * spec_ec_codewords(5, ECL::H) == 88);
    assert(spec_data_codewords(5, ECL::H) == 46);
    assert(spec_ec_codewords(5, ECL::H) == 22);
    assert(spec_poly_of_ec(22).len() == 23);
    assert(spec_total_codewords(5) == 134);
    assert(table_consistent_at(5, ECL::H));
}

proof fn lemma_table_consistency_h_6(version: int)
    requires
        version == 6,
    ensures
        table_consistent_at(version, ECL::H),
{
    let g = spec_groups(6, ECL::H);
    assert(g == ((4int, 15int), (0int, 0int)));
    assert(4int * 15int == 60int && 0int * 0int == 0int);
    assert(4int * 28int == 112int);
    assert(g.0.0 * g.0.1 + g.1.0 * g.1.1 == 60);
    assert((g.0.0 + g.1.0) * spec_ec_codewords(6, ECL::H) == 112);
    assert(spec_data_codewords(6, ECL::H) == 60);
    assert(spec_ec_codewords(6, ECL::H) == 28);
    assert(spec_poly_of_ec(28).len() == 29);
    assert(spec_total_codewords(6) == 172);
    assert(table_consistent_at(6, ECL::H));
}

proof fn lemma_table_consistency_h_7(version: int)
    requires
        version == 7,
    ensures
        table_consistent_at(version, ECL::H),
{
    let g = spec_groups(7, ECL::H);
    assert(g == ((4int, 13int), (1int, 14int)));
    assert(4int * 13int == 52int && 1int * 14int == 14int);
    assert(5int * 26int == 130int);
    assert(g.0.0 * g.0.1 + g.1.0 * g.1.1 == 66);
    assert((g.0.0 + g.1.0) * spec_ec_codewords(7, ECL::H) == 130);
    assert(spec_data_codewords(7, ECL::H) == 66);
    assert(spec_ec_codewords(7, ECL::H) == 26);
    assert(spec_poly_of_ec(26).len() == 27);
    assert(spec_total_codewords(7) == 196);
    assert(table_consistent_at(7, ECL::H));
}

proof fn lemma_table_consistency_h_8(version: int)
    requires
        version == 8,
    ensures
        table_consistent_at(version, ECL::H),
{
    let g = spec_groups(8, ECL::H);
    assert(g == ((4int, 14int), (2int, 15int)));
    assert(4int * 14int == 56int && 2int * 15int == 30int);
    assert(6int * 26int == 156int);
    assert(g.0.0 * g.0.1 + g.1.0 * g.1.1 == 86);
    assert((g.0.0 + g.1.0) * spec_ec_codewords(8, ECL::H) == 156);
    assert(spec_data_codewords(8, ECL::H) == 86);
    assert(spec_ec_codewords(8, ECL::H) == 26);
    assert(spec_poly_of_ec(26).len() == 27);
    assert(spec_total_codewords(8) == 242);
    assert(table_consistent_at(8, ECL::H));
}

proof fn lemma_table_consistency_h_9(version: int)
    requires
        version == 9,
    ensures
        table_consistent_at(version, ECL::H),
{
    let g = spec_groups(9, ECL::H);
    assert(g == ((4int, 12int), (4int, 13int)));
    assert(4int * 12int == 48int && 4int * 13int == 52int);
    assert(8int * 24int == 192int);
    assert(g.0.0 * g.0.1 + g.1.0 * g.1.1 == 100);
    assert((g.0.0 + g.1.0) * spec_ec_codewords(9, ECL::H) == 192);
    assert(spec_data_codewords(9, ECL::H) == 100);
    assert(spec_ec_codewords(9, ECL::H) == 24);
    assert(spec_poly_of_ec(24).len() == 25);
    assert(spec_total_codewords(9) == 292);
    assert(table_consistent_at(9, ECL::H));
}

proof fn lemma_table_consistency_h_10(version: int)
    requires
        version == 10,
    ensures
        table_consistent_at(version, ECL::H),
{
    let g = spec_groups(10, ECL::H);
    assert(g == ((6int, 15int), (2int, 16int)));
    assert(6int * 15int == 90int && 2int * 16int == 32int);
    assert(8int * 28int == 224int);
    assert(g.0.0 * g.0.1 + g.1.0 * g.1.1 == 122);
    assert((g.0.0 + g.1.0) * spec_ec_codewords(10, ECL::H) == 224);
    assert(spec_data_codewords(10, ECL::H) == 122);
    assert(spec_ec_codewords(10, ECL::H) == 28);
    assert(spec_poly_of_ec(28).len() == 29);
    assert(spec_total_codewords(10) == 346);
    assert(table_consistent_at(10, ECL::H));
}

proof fn lemma_table_consistency_h_11(version: int)
    requires
        version == 11,
    ensures
        table_consistent_at(version, ECL::H),
{
    let g = spec_groups(11, ECL::H);
    assert(g == ((3int, 12int), (8int, 13int)));
    assert(3int * 12int == 36int && 8int * 13int == 104int);
    assert(11int * 24int == 264int);
    assert(g.0.0 * g.0.1 + g.1.0 * g.1.1 == 140);
    assert((g.0.0 + g.1.0) * spec_ec_codewords(11, ECL::H) == 264);
    assert(spec_data_codewords(11, ECL::H) == 140);
    assert(spec_ec_codewords(11, ECL::H) == 24);
    assert(spec_poly_of_ec(24).len() == 25);
    assert(spec_total_codewords(11) == 404);
    assert(table_consistent_at(11, ECL::H));
}

proof fn lemma_table_consistency_h_12(version: int)
    requires
        version == 12,
    ensures
        table_consistent_at(version, ECL::H),
{
    let g = spec_groups(12, ECL::H);
    assert(g == ((7int, 14int), (4int, 15int)));
    assert(7int * 14int == 98int && 4int * 15int == 60int);
    assert(11int * 28int == 308int);
    assert(g.0.0 * g.0.1 + g.1.0 * g.1.1 == 158);
    assert((g.0.0 + g.1.0) * spec_ec_codewords(12, ECL::H) == 308);
    assert(spec_data_codewords(12, ECL::H) == 158);
    assert(spec_ec_codewords(12, ECL::H) == 28);
    assert(spec_poly_of_ec(28).len() == 29);
    assert(spec_total_codewords(12) == 466);
    assert(table_consistent_at(12, ECL::H));
}

proof fn lemma_table_consistency_h_13(version: int)
    requires
        version == 13,
    ensures
        table_consistent_at(version, ECL::H),
{
    let g = spec_groups(13, ECL::H);
    assert(g == ((12int, 11int), (4int, 12int)));
    assert(12int * 11int == 132int && 4int * 12int == 48int);
    assert(16int * 22int == 352int);
    assert(g.0.0 * g.0.1 + g.1.0 * g.1.1 == 180);
    assert((g.0.0 + g.1.0) * spec_ec_codewords(13, ECL::H) == 352);
    assert(spec_data_codewords(13, ECL::H) == 180);
    assert(spec_ec_codewords(13, ECL::H) == 22);
    assert(spec_poly_of_ec(22).len() == 23);
    assert(spec_total_codewords(13) == 532);
    assert(table_consistent_at(13, ECL::H));
}

proof fn lemma_table_consistency_h_14(version: int)
    requires
        version == 14,
    ensures
        table_consistent_at(version, ECL::H),
{
    let g = spec_groups(14, ECL::H);
    assert(g == ((11int, 12int), (5int, 13int)));
    assert(11int * 12int == 132int && 5int * 13int == 65int);
    assert(16int * 24int == 384int);
    assert(g.0.0 * g.0.1 + g.1.0 * g.1.1 == 197);
    assert((g.0.0 + g.1.0) * spec_ec_codewords(14, ECL::H) == 384);
    assert(spec_data_codewords(14, ECL::H) == 197);
    assert(spec_ec_codewords(14, ECL::H) == 24);
    assert(spec_poly_of_ec(24).len() == 25);
    assert(spec_total_codewords(14) == 581);
    assert(table_consistent_at(14, ECL::H));
}

proof fn lemma_table_consistency_h_15(version: int)
    requires
        version == 15,
    ensures
        table_consistent_at(version, ECL::H),
{
    let g = spec_groups(15, ECL::H);
    assert(g == ((11int, 12int), (7int, 13int)));
    assert(11int * 12int == 132int && 7int * 13int == 91int);
    assert(18int * 24int == 432int);
    assert(g.0.0 * g.0.1 + g.1.0 * g.1.1 == 223);
    assert((g.0.0 + g.1.0) * spec_ec_codewords(15, ECL::H) == 432);
    assert(spec_data_codewords(15, ECL::H) == 223);
    assert(spec_ec_codewords(15, ECL::H) == 24);
    assert(spec_poly_of_ec(24).len() == 25);
    assert(spec_total_codewords(15) == 655);
    assert(table_consistent_at(15, ECL::H));
}

proof fn lemma_table_consistency_h_16(version: int)
    requires
        version == 16,
    ensures
        table_consistent_at(version, ECL::H),
{
    let g = spec_groups(16, ECL::H);
    assert(g == ((3int, 15int), (13int, 16int)));
    assert(3int * 15int == 45int && 13int * 16int == 208int);
    assert(16int * 30int == 480int);
    assert(g.0.0 * g.0.1 + g.1.0 * g.1.1 == 253);
    assert((g.0.0 + g.1.0) * spec_ec_codewords(16, ECL::H) == 480);
    assert(spec_data_codewords(16, ECL::H) == 253);
    assert(spec_ec_codewords(16, ECL::H) == 30);
    assert(spec_poly_of_ec(30).len() == 31);
    assert(spec_total_codewords(16) == 733);
    assert(table_consistent_at(16, ECL::H));
}

proof fn lemma_table_consistency_h_17(version: int)
    requires
        version == 17,
    ensures
        table_consistent_at(version, ECL::H),
{
    let g = spec_groups(17, ECL::H);
    assert(g == ((2int, 14int), (17int, 15int)));
    assert(2int * 14int == 28int && 17int * 15int == 255int);
    assert(19int * 28int == 532int);
    assert(g.0.0 * g.0.1 + g.1.0 * g.1.1 == 283);
    assert((g.0.0 + g.1.0) * spec_ec_codewords(17, ECL::H) == 532);
    assert(spec_data_codewords(17, ECL::H) == 283);
    assert(spec_ec_codewords(17, ECL::H) == 28);
    assert(spec_poly_of_ec(28).len() == 29);
    assert(spec_total_codewords(17) == 815);
    assert(table_consistent_at(17, ECL::H));
}

proof fn lemma_table_consistency_h_18(version: int)
    requires
        version == 18,
    ensures
        table_consistent_at(version, ECL::H),
{
    let g = spec_groups(18, ECL::H);
    assert(g == ((2int, 14int), (19int, 15int)));
    assert(2int * 14int == 28int && 19int * 15int == 285int);
    assert(21int * 28int == 588int);
    assert(g.0.0 * g.0.1 + g.1.0 * g.1.1 == 313);
    assert((g.0.0 + g.1.0) * spec_ec_codewords(18, ECL::H) == 588);
    assert(spec_data_codewords(18, ECL::H) == 313);
    assert(spec_ec_codewords(18, ECL::H) == 28);
    assert(spec_poly_of_ec(28).len() == 29);
    assert(spec_total_codewords(18) == 901);
    assert(table_consistent_at(18, ECL::H));
}

proof fn lemma_table_consistency_h_19(version: int)
    requires
        version == 19,
    ensures
        table_consistent_at(version, ECL::H),
{
    let g = spec_groups(19, ECL::H);
    assert(g == ((9int, 13int), (16int, 14int)));
    assert(9int * 13int == 117int && 16int * 14int == 224int);
    assert(25int * 26int == 650int);
    assert(g.0.0 * g.0.1 + g.1.0 * g.1.1 == 341);
    assert((g.0.0 + g.1.0) * spec_ec_codewords(19, ECL::H) == 650);
    assert(spec_data_codewords(19, ECL::H) == 341);
    assert(spec_ec_codewords(19, ECL::H) == 26);
    assert(spec_poly_of_ec(26).len() == 27);
    assert(spec_total_codewords(19) == 991);
    assert(table_consistent_at(19, ECL::H));
}

proof fn lemma_table_consistency_h_20(version: int)
    requires
        version == 20,
    ensures
        table_consistent_at(version, ECL::H),
{
    let g = spec_groups(20, ECL::H);
    assert(g == ((15int, 15int), (10int, 16int)));
    assert(15int * 15int == 225int && 10int * 16int == 160int);
    assert(25int * 28int == 700int);
    assert(g.0.0 * g.0.1 + g.1.0 * g.1.1 == 385);
    assert((g.0.0 + g.1.0) * spec_ec_codewords(20, ECL::H) == 700);
    assert(spec_data_codewords(20, ECL::H) == 385);
    assert(spec_ec_codewords(20, ECL::H) == 28);
    assert(spec_poly_of_ec(28).len() == 29);
    assert(spec_total_codewords(20) == 1085);
    assert(table_consistent_at(20, ECL::H));
}

proof fn lemma_table_consistency_h_21(version: int)
    requires
        version == 21,
    ensures
        table_consistent_at(version, ECL::H),
{
    let g = spec_groups(21, ECL::H);
    assert(g == ((19int, 16int), (6int, 17int)));
    assert(19int * 16int == 304int && 6int * 17int == 102int);
    assert(25int * 30int == 750int);
    assert(g.0.0 * g.0.1 + g.1.0 * g.1.1 == 406);
    assert((g.0.0 + g.1.0) * spec_ec_codewords(21, ECL::H) == 750);
    assert(spec_data_codewords(21, ECL::H) == 406);
    assert(spec_ec_codewords(21, ECL::H) == 30);
    assert(spec_poly_of_ec(30).len() == 31);
    assert(spec_total_codewords(21) == 1156);
    assert(table_consistent_at(21, ECL::H));
}

proof fn lemma_table_consistency_h_22(version: int)
    requires
        version == 22,
    ensures
        table_consistent_at(version, ECL::H),
{
    let g = spec_groups(22, ECL::H);
    assert(g == ((34int, 13int), (0int, 0int)));
    assert(34int * 13int == 442int && 0int * 0int == 0int);
    assert(34int * 24int == 816int);
    assert(g.0.0 * g.0.1 + g.1.0 * g.1.1 == 442);
    assert((g.0.0 + g.1.0) * spec_ec_codewords(22, ECL::H) == 816);
    assert(spec_data_codewords(22, ECL::H) == 442);
    assert(spec_ec_codewords(22, ECL::H) == 24);
    assert(spec_poly_of_ec(24).len() == 25);
    assert(spec_total_codewords(22) == 1258);
    assert(table_consistent_at(22, ECL::H));
}

proof fn lemma_table_consistency_h_23(version: int)
    requires
        version == 23,
    ensures
        table_consistent_at(version, ECL::H),
{
    let g = spec_groups(23, ECL::H);
    assert(g == ((16int, 15int), (14int, 16int)));
    assert(16int * 15int == 240int && 14int * 16int == 224int);
    assert(30int * 30int == 900int);
    assert(g.0.0 * g.0.1 + g.1.0 * g.1.1 == 464);
    assert((g.0.0 + g.1.0) * spec_ec_codewords(23, ECL::H) == 900);
    assert(spec_data_codewords(23, ECL::H) == 464);
    assert(spec_ec_codewords(23, ECL::H) == 30);
    assert(spec_poly_of_ec(30).len() == 31);
    assert(spec_total_codewords(23) == 1364);
    assert(table_consistent_at(23, ECL::H));
}

proof fn lemma_table_consistency_h_24(version: int)
    requires
        version == 24,
    ensures
        table_consistent_at(version, ECL::H),
{
    let g = spec_groups(24, ECL::H);
    assert(g == ((30int, 16int), (2int, 17int)));
    assert(30int * 16int == 480int && 2int * 17int == 34int);
    assert(32int * 30int == 960int);
    assert(g.0.0 * g.0.1 + g.1.0 * g.1.1 == 514);
    assert((g.0.0 + g.1.0) * spec_ec_codewords(24, ECL::H) == 960);
    assert(spec_data_codewords(24, ECL::H) == 514);
    assert(spec_ec_codewords(24, ECL::H) == 30);
    assert(spec_poly_of_ec(30).len() == 31);
    assert(spec_total_codewords(24) == 1474);
    assert(table_consistent_at(24, ECL::H));
}

proof fn lemma_table_consistency_h_25(version: int)
    requires
        version == 25,
    ensures
        table_consistent_at(version, ECL::H),
{
    let g = spec_groups(25, ECL::H);
    assert(g == ((22int, 15int), (13int, 16int)));
    assert(22int * 15int == 330int && 13int * 16int == 208int);
    assert(35int * 30int == 1050int);
    assert(g.0.0 * g.0.1 + g.1.0 * g.1.1 == 538);
    assert((g.0.0 + g.1.0) * spec_ec_codewords(25, ECL::H) == 1050);
    assert(spec_data_codewords(25, ECL::H) == 538);
    assert(spec_ec_codewords(25, ECL::H) == 30);
    assert(spec_poly_of_ec(30).len() == 31);
    assert(spec_total_codewords(25) == 1588);
    assert(table_consistent_at(25, ECL::H));
}

proof fn lemma_table_consistency_h_26(version: int)
    requires
        version == 26,
    ensures
        table_consistent_at(version, ECL::H),
{
    let g = spec_groups(26, ECL::H);
    assert(g == ((33int, 16int), (4int, 17int)));
    assert(33int * 16int == 528int && 4int * 17int == 68int);
    assert(37int * 30int == 1110int);
    assert(g.0.0 * g.0.1 + g.1.0 * g.1.1 == 596);
    assert((g.0.0 + g.1.0) * spec_ec_codewords(26, ECL::H) == 1110);
    assert(spec_data_codewords(26, ECL::H) == 596);
    assert(spec_ec_codewords(26, ECL::H) == 30);
    assert(spec_poly_of_ec(30).len() == 31);
    assert(spec_total_codewords(26) == 1706);
    assert(table_consistent_at(26, ECL::H));
}

proof fn lemma_table_consistency_h_27(version: int)
    requires
        version == 27,
    ensures
        table_consistent_at(version, ECL::H),
{
    let g = spec_groups(27, ECL::H);
    assert(g == ((12int, 15int), (28int, 16int)));
    assert(12int * 15int == 180int && 28int * 16int == 448int);
    assert(40int * 30int == 1200int);
    assert(g.0.0 * g.0.1 + g.1.0 * g.1.1 == 628);
    assert((g.0.0 + g.1.0) * spec_ec_codewords(27, ECL::H) == 1200);
    assert(spec_data_codewords(27, ECL::H) == 628);
    assert(spec_ec_codewords(27, ECL::H) == 30);
    assert(spec_poly_of_ec(30).len() == 31);
    assert(spec_total_codewords(27) == 1828);
    assert(table_consistent_at(27, ECL::H));
}

proof fn lemma_table_consistency_h_28(version: int)
    requires
        version == 28,
    ensures
        table_consistent_at(version, ECL::H),
{
    let g = spec_groups(28, ECL::H);
    assert(g == ((11int, 15int), (31int, 16int)));
    assert(11int * 15int == 165int && 31int * 16int == 496int);
    assert(42int * 30int == 1260int);
    assert(g.0.0 * g.0.1 + g.1.0 * g.1.1 == 661);
    assert((g.0.0 + g.1.0) * spec_ec_codewords(28, ECL::H) == 1260);
    assert(spec_data_codewords(28, ECL::H) == 661);
    assert(spec_ec_codewords(28, ECL::H) == 30);
    assert(spec_poly_of_ec(30).len() == 31);
    assert(spec_total_codewords(28) == 1921);
    assert(table_consistent_at(28, ECL::H));
}

proof fn lemma_table_consistency_h_29(version: int)
    requires
        version == 29,
    ensures
        table_consistent_at(version, ECL::H),
{
    let g = spec_groups(29, ECL::H);
    assert(g == ((19int, 15int), (26int, 16int)));
    assert(19int * 15int == 285int && 26int * 16int == 416int);
    assert(45int * 30int == 1350int);
    assert(g.0.0 * g.0.1 + g.1.0 * g.1.1 == 701);
    assert((g.0.0 + g.1.0) * spec_ec_codewords(29, ECL::H) == 1350);
    assert(spec_data_codewords(29, ECL::H) == 701);
    assert(spec_ec_codewords(29, ECL::H) == 30);
    assert(spec_poly_of_ec(30).len() == 31);
    assert(spec_total_codewords(29) == 2051);
    assert(table_consistent_at(29, ECL::H));
}

proof fn lemma_table_consistency_h_30(version: int)
    requires
        version == 30,
    ensures
        table_consistent_at(version, ECL::H),
{
    let g = spec_groups(30, ECL::H);
    assert(g == ((23int, 15int), (25int, 16int)));
    assert(23int * 15int == 345int && 25int * 16int == 400int);
    assert(48int * 30int == 1440int);
    assert(g.0.0 * g.0.1 + g.1.0 * g.1.1 == 745);
    assert((g.0.0 + g.1.0) * spec_ec_codewords(30, ECL::H) == 1440);
    assert(spec_data_codewords(30, ECL::H) == 745);
    assert(spec_ec_codewords(30, ECL::H) == 30);
    assert(spec_poly_of_ec(30).len() == 31);
    assert(spec_total_codewords(30) == 2185);
    assert(table_consistent_at(30, ECL::H));
}

proof fn lemma_table_consistency_h_31(version: int)
    requires
        version == 31,
    ensures
        table_consistent_at(version, ECL::H),
{
    let g = spec_groups(31, ECL::H);
    assert(g == ((23int, 15int), (28int, 16int)));
    assert(23int * 15int == 345int && 28int * 16int == 448int);
    assert(51int * 30int == 1530int);
    assert(g.0.0 * g.0.1 + g.1.0 * g.1.1 == 793);
    assert((g.0.0 + g.1.0) * spec_ec_codewords(31, ECL::H) == 1530);
    assert(spec_data_codewords(31, ECL::H) == 793);
    assert(spec_ec_codewords(31, ECL::H) == 30);
    assert(spec_poly_of_ec(30).len() == 31);
    assert(spec_total_codewords(31) == 2323);
    assert(table_consistent_at(31, ECL::H));
}

proof fn lemma_table_consistency_h_32(version: int)
    requires
        version == 32,
    ensures
        table_consistent_at(version, ECL::H),
{
    let g = spec_groups(32, ECL::H);
    assert(g == ((19int, 15int), (35int, 16int)));
    assert(19int * 15int == 285int && 35int * 16int == 560int);
    assert(54int * 30int == 1620int);
    assert(g.0.0 * g.0.1 + g.1.0 * g.1.1 == 845);
    assert((g.0.0 + g.1.0) * spec_ec_codewords(32, ECL::H) == 1620);
    assert(spec_data_codewords(32, ECL::H) == 845);
    assert(spec_ec_codewords(32, ECL::H) == 30);
    assert(spec_poly_of_ec(30).len() == 31);
    assert(spec_total_codewords(32) == 2465);
    assert(table_consistent_at(32, ECL::H));
}

proof fn lemma_table_consistency_h_33(version: int)
    requires
        version == 33,
    ensures
        table_consistent_at(version, ECL::H),
{
    let g = spec_groups(33, ECL::H);
    assert(g == ((11int, 15int), (46int, 16int)));
    assert(11int * 15int == 165int && 46int * 16int == 736int);
    assert(57int * 30int == 1710int);
    assert(g.0.0 * g.0.1 + g.1.0 * g.1.1 == 901);
    assert((g.0.0 + g.1.0) * spec_ec_codewords(33, ECL::H) == 1710);
    assert(spec_data_codewords(33, ECL::H) == 901);
    assert(spec_ec_codewords(33, ECL::H) == 30);
    assert(spec_poly_of_ec(30).len() == 31);
    assert(spec_total_codewords(33) == 2611);
    assert(table_consistent_at(33, ECL::H));
}

proof fn lemma_table_consistency_h_34(version: int)
    requires
        version == 34,
    ensures
        table_consistent_at(version, ECL::H),
{
    let g = spec_groups(34, ECL::H);
    assert(g == ((59int, 16int), (1int, 17int)));
    assert(59int * 16int == 944int && 1int * 17int == 17int);
    assert(60int * 30int == 1800int);
    assert(g.0.0 * g.0.1 + g.1.0 * g.1.1 == 961);
    assert((g.0.0 + g.1.0) * spec_ec_codewords(34, ECL::H) == 1800);
    assert(spec_data_codewords(34, ECL::H) == 961);
    assert(spec_ec_codewords(34, ECL::H) == 30);
    assert(spec_poly_of_ec(30).len() == 31);
    assert(spec_total_codewords(34) == 2761);
    assert(table_consistent_at(34, ECL::H));
}

proof fn lemma_table_consistency_h_35(version: int)
    requires
        version == 35,
    ensures
        table_consistent_at(version, ECL::H),
{
    let g = spec_groups(35, ECL::H);
    assert(g == ((22int, 15int), (41int, 16int)));
    assert(22int * 15int == 330int && 41int * 16int == 656int);
    assert(63int * 30int == 1890int);
    assert(g.0.0 * g.0.1 + g.1.0 * g.1.1 == 986);
    assert((g.0.0 + g.1.0) * spec_ec_codewords(35, ECL::H) == 1890);
    assert(spec_data_codewords(35, ECL::H) == 986);
    assert(spec_ec_codewords(35, ECL::H) == 30);
    assert(spec_poly_of_ec(30).len() == 31);
    assert(spec_total_codewords(35) == 2876);
    assert(table_consistent_at(35, ECL::H));
}

proof fn lemma_table_consistency_h_36(version: int)
    requires
        version == 36,
    ensures
        table_consistent_at(version, ECL::H),
{
    let g = spec_groups(36, ECL::H);
    assert(g == ((2int, 15int), (64int, 16int)));
    assert(2int * 15int == 30int && 64int * 16int == 1024int);
    assert(66int * 30int == 1980int);
    assert(g.0.0 * g.0.1 + g.1.0 * g.1.1 == 1054);
    assert((g.0.0 + g.1.0) * spec_ec_codewords(36, ECL::H) == 1980);
    assert(spec_data_codewords(36, ECL::H) == 1054);
    assert(spec_ec_codewords(36, ECL::H) == 30);
    assert(spec_poly_of_ec(30).len() == 31);
    assert(spec_total_codewords(36) == 3034);
    assert(table_consistent_at(36, ECL::H));
}

proof fn lemma_table_consistency_h_37(version: int)
    requires
        version == 37,
    ensures
        table_consistent_at(version, ECL::H),
{
    let g = spec_groups(37, ECL::H);
    assert(g == ((24int, 15int), (46int, 16int)));
    assert(24int * 15int == 360int && 46int * 16int == 736int);
    assert(70int * 30int == 2100int);
    assert(g.0.0 * g.0.1 + g.1.0 * g.1.1 == 1096);
    assert((g.0.0 + g.1.0) * spec_ec_codewords(37, ECL::H) == 2100);
    assert(spec_data_codewords(37, ECL::H) == 1096);
    assert(spec_ec_codewords(37, ECL::H) == 30);
    assert(spec_poly_of_ec(30).len() == 31);
    assert(spec_total_codewords(37) == 3196);
    assert(table_consistent_at(37, ECL::H));
}

proof fn lemma_table_consistency_h_38(version: int)
    requires
        version == 38,
    ensures
        table_consistent_at(version, ECL::H),
{
    let g = spec_groups(38, ECL::H);
    assert(g == ((42int, 15int), (32int, 16int)));
    assert(42int * 15int == 630int && 32int * 16int == 512int);
    assert(74int * 30int == 2220int);
    assert(g.0.0 * g.0.1 + g.1.0 * g.1.1 == 1142);
    assert((g.0.0 + g.1.0) * spec_ec_codewords(38, ECL::H) == 2220);
    assert(spec_data_codewords(38, ECL::H) == 1142);
    assert(spec_ec_codewords(38, ECL::H) == 30);
    assert(spec_poly_of_ec(30).len() == 31);
    assert(spec_total_codewords(38) == 3362);
    assert(table_consistent_at(38, ECL::H));
}

proof fn lemma_table_consistency_h_39(version: int)
    requires
        version == 39,
    ensures
        table_consistent_at(version, ECL::H),
{
    let g = spec_groups(39, ECL::H);
    assert(g == ((10int, 15int), (67int, 16int)));
    assert(10int * 15int == 150int && 67int * 16int == 1072int);
    assert(77int * 30int == 2310int);
    assert(g.0.0 * g.0.1 + g.1.0 * g.1.1 == 1222);
    assert((g.0.0 + g.1.0) * spec_ec_codewords(39, ECL::H) == 2310);
    assert(spec_data_codewords(39, ECL::H) == 1222);
    assert(spec_ec_codewords(39, ECL::H) == 30);
    assert(spec_poly_of_ec(30).len() == 31);
    assert(spec_total_codewords(39) == 3532);
    assert(table_consistent_at(39, ECL::H));
}

proof fn lemma_table_consistency_h_40(version: int)
    requires
        version == 40,
    ensures
        table_consistent_at(version, ECL::H),
{
    let g = spec_groups(40, ECL::H);
    assert(g == ((20int, 15int), (61int, 16int)));
    assert(20int * 15int == 300int && 61int * 16int == 976int);
    assert(81int * 30int == 2430int);
    assert(g.0.0 * g.0.1 + g.1.0 * g.1.1 == 1276);
    assert((g.0.0 + g.1.0) * spec_ec_codewords(40, ECL::H) == 2430);
    assert(spec_data_codewords(40, ECL::H) == 1276);
    assert(spec_ec_codewords(40, ECL::H) == 30);
    assert(spec_poly_of_ec(30).len() == 31);
    assert(spec_total_codewords(40) == 3706);
    assert(table_consistent_at(40, ECL::H));
}

proof fn lemma_table_consistency_h(version: int)
    requires
        1 <= version <= 40,
    ensures
        table_consistent_at(version, ECL::H),
{
    if version == 1 {
        lemma_table_consistency_h_1(version);
    } else if version == 2 {
        lemma_table_consistency_h_2(version);
    } else if version == 3 {
        lemma_table_consistency_h_3(version);
    } else if version == 4 {
        lemma_table_consistency_h_4(version);
    } else if version == 5 {
        lemma_table_consistency_h_5(version);
    } else if version == 6 {
        lemma_table_consistency_h_6(version);
    } else if version == 7 {
        lemma_table_consistency_h_7(version);
    } else if version == 8 {
        lemma_table_consistency_h_8(version);
    } else if version == 9 {
        lemma_table_consistency_h_9(version);
    } else if version == 10 {
        lemma_table_consistency_h_10(version);
    } else if version == 11 {
        lemma_table_consistency_h_11(version);
    } else if version == 12 {
        lemma_table_consistency_h_12(version);
    } else if version == 13 {
        lemma_table_consistency_h_13(version);
    } else if version == 14 {
        lemma_table_consistency_h_14(version);
    } else if version == 15 {
        lemma_table_consistency_h_15(version);
    } else if version == 16 {
        lemma_table_consistency_h_16(version);
    } else if version == 17 {
        lemma_table_consistency_h_17(version);
    } else if version == 18 {
        lemma_table_consistency_h_18(version);
    } else if version == 19 {
        lemma_table_consistency_h_19(version);
    } else if version == 20 {
        lemma_table_consistency_h_20(version);
    } else if version == 21 {
        lemma_table_consistency_h_21(version);
    } else if version == 22 {
        lemma_table_consistency_h_22(version);
    } else if version == 23 {
        lemma_table_consistency_h_23(version);
    } else if version == 24 {
        lemma_table_consistency_h_24(version);
    } else if version == 25 {
        lemma_table_consistency_h_25(version);
    } else if version == 26 {
        lemma_table_consistency_h_26(version);
    } else if version == 27 {
        lemma_table_consistency_h_27(version);
    } else if version == 28 {
        lemma_table_consistency_h_28(version);
    } else if version == 29 {
        lemma_table_consistency_h_29(version);
    } else if version == 30 {
        lemma_table_consistency_h_30(version);
    } else if version == 31 {
        lemma_table_consistency_h_31(version);
    } else if version == 32 {
        lemma_table_consistency_h_32(version);
    } else if version == 33 {
        lemma_table_consistency_h_33(version);
    } else if version == 34 {
        lemma_table_consistency_h_34(version);
    } else if version == 35 {
        lemma_table_consistency_h_35(version);
    } else if version == 36 {
        lemma_table_consistency_h_36(version);
    } else if version == 37 {
        lemma_table_consistency_h_37(version);
    } else if version == 38 {
        lemma_table_consistency_h_38(version);
    } else if version == 39 {
        lemma_table_consistency_h_39(version);
    } else if version == 40 {
        lemma_table_consistency_h_40(version);
    }
}

} // verus!
