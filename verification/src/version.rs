//! The symbol version: an integer identity 1 to 40 that fixes the symbol's
//! size class and indexes every structural table, and the resolver that
//! picks the smallest version whose data-bit budget fits a given input.

use vstd::prelude::*;
use vstd::arithmetic::div_mod::lemma_fundamental_div_mod;
use vstd::arithmetic::power2::*;
use crate::bitstring::MAX_DATA_BITS;
use crate::ecl::ECL;
use crate::encode::{Mode, spec_payload_len};
use crate::hardcode::{cci_bits, data_bits, lemma_data_codewords_bound, spec_cci_bits, spec_data_bits};

verus! {

/// A symbol version: an integer between 1 and 40.
#[derive(Debug, Clone, Copy, PartialEq, Eq)]
pub struct Version {
    n: u8,
}

impl Version {
    /// The version number as a mathematical integer.
    pub closed spec fn num(self) -> int {
        self.n as int
    }

    /// Every value of the type holds a version number between 1 and 40.
    #[verifier::type_invariant]
    pub closed spec fn wf(self) -> bool {
        1 <= self.n <= 40
    }

    /// Wraps a version number between 1 and 40.
    pub fn new(n: u8) -> (r: Version)
        requires
            1 <= n <= 40,
        ensures
            r.num() == n,
    {
        Version { n }
    }

    /// The version number.
    pub fn number(&self) -> (r: u8)
        ensures
            r == self.num(),
            1 <= r <= 40,
    {
        proof {
            use_type_invariant(self);
        }
        self.n
    }

    /// Side length of the symbol for this version: 17 plus 4 per version.
    pub fn side_length(&self) -> (r: usize)
        ensures
            r == 17 + 4 * self.num(),
    {
        proof {
            use_type_invariant(self);
        }
        17 + 4 * (self.n as usize)
    }
}


/// Whether a version's data-bit budget at a level accommodates the
/// mode-encoded stream of `len` input bytes: four indicator bits, the
/// character-count indicator, the packed payload, and the four-bit
/// terminator.
pub open spec fn spec_fits(mode: Mode, ecl: ECL, len: nat, version: int) -> bool {
    4 + spec_cci_bits(version, mode) + spec_payload_len(mode, len) + 4 <= spec_data_bits(
        version,
        ecl,
    )
}

/// The smallest version from `version` on that fits, if any.
pub open spec fn spec_resolve_from(mode: Mode, ecl: ECL, len: nat, version: int) -> Option<int>
    decreases 41 - version,
{
    if version < 1 || version > 40 {
        None
    } else if spec_fits(mode, ecl, len, version) {
        Some(version)
    } else {
        spec_resolve_from(mode, ecl, len, version + 1)
    }
}

/// The smallest version of all that fits, if any.
pub open spec fn spec_resolve(mode: Mode, ecl: ECL, len: nat) -> Option<int> {
    spec_resolve_from(mode, ecl, len, 1)
}

/// The version a resolver answer names fits, and no smaller one does.
pub proof fn lemma_resolve_properties(mode: Mode, ecl: ECL, len: nat, version: int)
    requires
        1 <= version <= 41,
    ensures
        spec_resolve_from(mode, ecl, len, version) matches Some(v) ==> version <= v <= 40
            && spec_fits(mode, ecl, len, v) && (forall|u: int|
            version <= u < v ==> !spec_fits(mode, ecl, len, u)),
        spec_resolve_from(mode, ecl, len, version) is None ==> forall|u: int|
            version <= u <= 40 ==> !spec_fits(mode, ecl, len, u),
    decreases 41 - version,
{
    if version <= 40 && !spec_fits(mode, ecl, len, version) {
        lemma_resolve_properties(mode, ecl, len, version + 1);
    }
}

/// A payload never packs below one bit per input byte.
pub proof fn lemma_payload_len_at_least(mode: Mode, n: nat)
    ensures
        spec_payload_len(mode, n) >= n,
{
    match mode {
        Mode::Numeric => {
            lemma_fundamental_div_mod(n as int, 3);
        },
        Mode::Alphanumeric => {
            lemma_fundamental_div_mod(n as int, 2);
        },
        Mode::Byte => {},
    }
}

/// Input longer than the largest budget fits no version at all.
proof fn lemma_resolve_none_when_large(mode: Mode, ecl: ECL, len: nat, version: int)
    requires
        len > MAX_DATA_BITS,
    ensures
        spec_resolve_from(mode, ecl, len, version) is None,
    decreases 41 - version,
{
    if 1 <= version <= 40 {
        lemma_payload_len_at_least(mode, len);
        lemma_data_codewords_bound(version, ecl);
        assert(!spec_fits(mode, ecl, len, version));
        lemma_resolve_none_when_large(mode, ecl, len, version + 1);
    }
}

/// At a version that fits, the input length is expressible in that
/// version's character-count indicator, and the whole stream with its
/// header stays within the global capacity.
pub proof fn lemma_fits_bounds(mode: Mode, ecl: ECL, len: nat, version: int)
    requires
        1 <= version <= 40,
        spec_fits(mode, ecl, len, version),
    ensures
        len < pow2(spec_cci_bits(version, mode) as nat),
        4 + spec_cci_bits(version, mode) + spec_payload_len(mode, len) + 4 <= MAX_DATA_BITS,
{
    lemma_data_codewords_bound(version, ecl);
    lemma2_to64();
    match mode {
        Mode::Numeric => {
            lemma_fundamental_div_mod(len as int, 3);
            if version <= 9 {
                assert(10 * (len / 3) <= 1838);
                assert(len / 3 <= 183);
                assert(len < 1024);
            } else if version <= 26 {
                assert(len / 3 <= 1094);
                assert(len < 4096);
            } else {
                assert(len / 3 <= 2362);
                assert(len < 16384);
            }
        },
        Mode::Alphanumeric => {
            lemma_fundamental_div_mod(len as int, 2);
            if version <= 9 {
                assert(len / 2 <= 167);
                assert(len < 512);
            } else if version <= 26 {
                assert(len / 2 <= 994);
                assert(len < 2048);
            } else {
                assert(len / 2 <= 2147);
                assert(len < 8192);
            }
        },
        Mode::Byte => {
            if version <= 9 {
                assert(len < 256);
            } else {
                assert(len < 65536);
            }
        },
    }
}

/// Computes the packed payload length of a mode for `len` input bytes.
fn mode_payload_len(mode: Mode, len: usize) -> (r: usize)
    requires
        len <= MAX_DATA_BITS,
    ensures
        r == spec_payload_len(mode, len as nat),
{
    match mode {
        Mode::Numeric => {
            proof {
                vstd::arithmetic::div_mod::lemma_div_is_ordered(
                    len as int,
                    MAX_DATA_BITS as int,
                    3,
                );
            }
            10 * (len / 3) + (if len % 3 == 1 {
                4
            } else if len % 3 == 2 {
                7
            } else {
                0
            })
        },
        Mode::Alphanumeric => {
            proof {
                vstd::arithmetic::div_mod::lemma_div_is_ordered(
                    len as int,
                    MAX_DATA_BITS as int,
                    2,
                );
            }
            11 * (len / 2) + 6 * (len % 2)
        },
        Mode::Byte => 8 * len,
    }
}

/// Tries versions upward from `v` and returns the first that fits.
fn resolve_from(mode: Mode, ecl: ECL, len: usize, v: u8) -> (r: Option<Version>)
    requires
        1 <= v <= 41,
        len <= MAX_DATA_BITS,
    ensures
        r is Some <==> spec_resolve_from(mode, ecl, len as nat, v as int) is Some,
        r matches Some(version) ==> version.num() == spec_resolve_from(
            mode,
            ecl,
            len as nat,
            v as int,
        ).unwrap() && spec_fits(mode, ecl, len as nat, version.num()),
    decreases 41 - v,
{
    if v > 40 {
        return None;
    }
    let version = Version::new(v);
    let cci = cci_bits(version, mode);
    let db = data_bits(version, ecl);
    let plen = mode_payload_len(mode, len);
    if 8 + cci + plen <= db {
        Some(version)
    } else {
        resolve_from(mode, ecl, len, v + 1)
    }
}

impl Version {
    /// Returns the smallest version whose data-bit budget for the level
    /// accommodates a mode-encoded stream of `len` input bytes, indicator,
    /// character-count field and terminator included; `None` if even the
    /// largest symbol cannot hold it.
    pub fn get(mode: Mode, ecl: ECL, len: usize) -> (r: Option<Version>)
        ensures
            r is Some <==> spec_resolve(mode, ecl, len as nat) is Some,
            r matches Some(version) ==> version.num() == spec_resolve(
                mode,
                ecl,
                len as nat,
            ).unwrap() && spec_fits(mode, ecl, len as nat, version.num()),
    {
        if len > MAX_DATA_BITS {
            proof {
                lemma_resolve_none_when_large(mode, ecl, len as nat, 1);
            }
            return None;
        }
        resolve_from(mode, ecl, len, 1)
    }
}

} // verus!
