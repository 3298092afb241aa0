//! Library-wide laws, stated over the specifications that `build`'s
//! contract uses and proved once and for all.

use vstd::prelude::*;

verus! {

use crate::blueprint::Blueprint;
use crate::blueprint::PinMode;
use crate::chips::Chip;
use crate::errors::Error;
use crate::gal::GAL;
use crate::gal::Mode;
use crate::gal_builder::aux_err;
use crate::gal_builder::aux_err_witness;
use crate::gal_builder::aux_olmc_ok;
use crate::gal_builder::build_err_witness;
use crate::gal_builder::build_mode;
use crate::gal_builder::core_err;
use crate::gal_builder::core_err_witness;
use crate::gal_builder::core_olmc_ok;
use crate::gal_builder::expected_fuse;
use crate::gal_builder::gal_matches;
use crate::gal_builder::olmc_ra10_clean;
use crate::gal_builder::ra10_feature_err;
use crate::gal_builder::ra10_feature_err_witness;
use crate::gal_builder::s1_expected;
use crate::gal_builder::sig_bit;
use crate::gal_builder::sig_plane_ok;
use crate::gal_builder::tri_flag;
use crate::gal_builder::two_pow;
use crate::gal_builder::xor_cond;

/// Any two GALs that `build`'s contract admits for the same blueprint
/// are identical bit for bit: every fuse and every configuration bit is
/// a function of the blueprint alone, so building the same blueprint
/// twice (or on independent instances, in any order) gives the same
/// fuse map.
#[verifier::rlimit(100)]
pub proof fn lemma_build_deterministic(b: Blueprint, g1: GAL, g2: GAL)
    requires
        gal_matches(b, g1),
        gal_matches(b, g2),
    ensures
        g1.chip == g2.chip,
        g1.fuses@.len() == g2.fuses@.len(),
        forall|r: int| 0 <= r < g1.fuses@.len() ==> (#[trigger] g1.fuses@[r])@ =~= g2.fuses@[r]@,
        g1.xor@ =~= g2.xor@,
        g1.sig@ =~= g2.sig@,
        g1.ac1@ =~= g2.ac1@,
        g1.pt@ =~= g2.pt@,
        g1.s1@ =~= g2.s1@,
        g1.syn == g2.syn,
        g1.ac0 == g2.ac0,
{
    assert forall|r: int| 0 <= r < g1.fuses@.len() implies (#[trigger] g1.fuses@[r])@
        =~= g2.fuses@[r]@ by {
        assert forall|c: int| 0 <= c < g1.fuses@[r]@.len() implies g1.fuses@[r]@[c]
            == g2.fuses@[r]@[c] by {
            assert(g1.fuse(r, c) == expected_fuse(b, r, c));
            assert(g2.fuse(r, c) == expected_fuse(b, r, c));
        }
    }
    let nc = b.chip.olmcs();
    assert forall|k: int| 0 <= k < g1.xor@.len() implies g1.xor@[k] == g2.xor@[k] by {
        let j = nc - 1 - k;
        assert(g1.xor@[nc - 1 - j] == xor_cond(b.olmcs@[j]));
        assert(g2.xor@[nc - 1 - j] == xor_cond(b.olmcs@[j]));
    }
    assert forall|k: int| 0 <= k < 8 implies g1.ac1@[k] == g2.ac1@[k] by {
        let j = 7 - k;
        let cond = (b.chip == Chip::GAL16V8 || b.chip == Chip::GAL20V8) && tri_flag(
            b.olmcs@[j],
            build_mode(b) != Mode::Mode1,
        );
        assert(g1.ac1@[7 - j] == cond);
        assert(g2.ac1@[7 - j] == cond);
    }
    assert forall|k: int| 0 <= k < 10 implies g1.s1@[k] == g2.s1@[k] by {
        let j = 9 - k;
        assert(g1.s1@[9 - j] == s1_expected(b, j));
        assert(g2.s1@[9 - j] == s1_expected(b, j));
    }
    assert forall|n: int| 0 <= n < 64 implies g1.sig@[n] == g2.sig@[n] by {
        assert(g1.sig@[n] == (n / 8 < b.sig@.len() && sig_bit(b.sig@[n / 8], n % 8)));
        assert(g2.sig@[n] == (n / 8 < b.sig@.len() && sig_bit(b.sig@[n / 8], n % 8)));
    }
}

/// Two errors that `build`'s contract admits for the same blueprint
/// are the same error: together with `lemma_build_deterministic` this
/// makes the whole result of a build a function of the blueprint.
pub proof fn lemma_build_err_deterministic(b: Blueprint, e1: Error, e2: Error)
    requires
        build_err_witness(b, e1),
        build_err_witness(b, e2),
    ensures
        e1 == e2,
{
    let mode = build_mode(b);
    if ra10_feature_err_witness(b, e1) && ra10_feature_err_witness(b, e2) {
        let i1 = choose|i: int|
            0 <= i < b.olmcs@.len() && !olmc_ra10_clean(#[trigger] b.olmcs@[i])
                && (forall|j: int|
                0 <= j < i ==> olmc_ra10_clean(#[trigger] b.olmcs@[j])) && e1
                == ra10_feature_err(b.olmcs@[i]);
        let i2 = choose|i: int|
            0 <= i < b.olmcs@.len() && !olmc_ra10_clean(#[trigger] b.olmcs@[i])
                && (forall|j: int|
                0 <= j < i ==> olmc_ra10_clean(#[trigger] b.olmcs@[j])) && e2
                == ra10_feature_err(b.olmcs@[i]);
        assert(i1 == i2);
    }
    if core_err_witness(b, mode, e1) && core_err_witness(b, mode, e2) {
        let i1 = choose|i: int|
            0 <= i < b.olmcs@.len() && !core_olmc_ok(
                #[trigger] b.olmcs@[i],
                b.chip,
                mode,
                i,
            ) && (forall|j: int|
                0 <= j < i ==> core_olmc_ok(
                    #[trigger] b.olmcs@[j],
                    b.chip,
                    mode,
                    j,
                )) && e1 == core_err(b.olmcs@[i], b.chip, mode, i);
        let i2 = choose|i: int|
            0 <= i < b.olmcs@.len() && !core_olmc_ok(
                #[trigger] b.olmcs@[i],
                b.chip,
                mode,
                i,
            ) && (forall|j: int|
                0 <= j < i ==> core_olmc_ok(
                    #[trigger] b.olmcs@[j],
                    b.chip,
                    mode,
                    j,
                )) && e2 == core_err(b.olmcs@[i], b.chip, mode, i);
        assert(i1 == i2);
    }
    if aux_err_witness(b, e1) && aux_err_witness(b, e2) {
        let i1 = choose|i: int|
            0 <= i < b.olmcs@.len() && !aux_olmc_ok(#[trigger] b.olmcs@[i]) && (
            forall|j: int| 0 <= j < i ==> aux_olmc_ok(#[trigger] b.olmcs@[j]))
                && e1 == aux_err(b.olmcs@[i]);
        let i2 = choose|i: int|
            0 <= i < b.olmcs@.len() && !aux_olmc_ok(#[trigger] b.olmcs@[i]) && (
            forall|j: int| 0 <= j < i ==> aux_olmc_ok(#[trigger] b.olmcs@[j]))
                && e2 == aux_err(b.olmcs@[i]);
        assert(i1 == i2);
    }
}

/// On a 22V10, an OLMC that declares no combinatorial and no tristate
/// output and is not used as feedback has its S1 tristate-control bit
/// clear (at the reversed index the fuse-map topology dictates).
pub proof fn lemma_s1_clear_for_unused(b: Blueprint, g: GAL, i: int)
    requires
        gal_matches(b, g),
        b.chip == Chip::GAL22V10,
        b.wf(),
        0 <= i < 10,
        !(b.olmcs@[i].output matches Some((PinMode::Combinatorial, _))),
        !(b.olmcs@[i].output matches Some((PinMode::Tristate, _))),
        !b.olmcs@[i].feedback,
    ensures
        g.s1@[9 - i] == false,
{
    assert(tri_flag(b.olmcs@[i], true) == false);
    assert(g.s1@[9 - i] == s1_expected(b, i));
}

pub open spec fn bit_val(b: bool) -> int {
    if b {
        1
    } else {
        0
    }
}

/// The byte read back MSB-first from bits `8i .. 8i + 8` of the
/// signature plane.
pub open spec fn sig_byte_of_bits(sig: Seq<bool>, i: int) -> int {
    bit_val(sig[8 * i]) * 128 + bit_val(sig[8 * i + 1]) * 64 + bit_val(sig[8 * i + 2]) * 32
        + bit_val(sig[8 * i + 3]) * 16 + bit_val(sig[8 * i + 4]) * 8 + bit_val(sig[8 * i + 5]) * 4
        + bit_val(sig[8 * i + 6]) * 2 + bit_val(sig[8 * i + 7])
}

/// A byte equals the weighted sum of its bits, MSB first.
proof fn lemma_byte_decomposition(c: u8)
    ensures
        c == (c / 128) % 2 * 128 + (c / 64) % 2 * 64 + (c / 32) % 2 * 32 + (c / 16) % 2 * 16 + (c
            / 8) % 2 * 8 + (c / 4) % 2 * 4 + (c / 2) % 2 * 2 + c % 2,
{
    assert(c == (c / 128) % 2 * 128 + (c / 64) % 2 * 64 + (c / 32) % 2 * 32 + (c / 16) % 2 * 16 + (
    c / 8) % 2 * 8 + (c / 4) % 2 * 4 + (c / 2) % 2 * 2 + c % 2) by (bit_vector);
}

/// Signature packing round-trip: unpacking the signature plane
/// MSB-first yields the blueprint's signature bytes, padded with zero
/// bytes to eight.
pub proof fn lemma_sig_round_trip(bytes: Seq<u8>, sig: Seq<bool>)
    requires
        bytes.len() <= 8,
        sig.len() == 64,
        sig_plane_ok(bytes, sig),
    ensures
        forall|i: int|
            0 <= i < 8 ==> #[trigger] sig_byte_of_bits(sig, i) == (if i < bytes.len() {
                bytes[i] as int
            } else {
                0
            }),
{
    assert forall|i: int| 0 <= i < 8 implies #[trigger] sig_byte_of_bits(sig, i) == (if i
        < bytes.len() {
        bytes[i] as int
    } else {
        0
    }) by {
        assert forall|j: int| 0 <= j < 8 implies sig[8 * i + j] == (i < bytes.len() && sig_bit(
            bytes[i],
            j,
        )) by {
            let n = 8 * i + j;
            vstd::arithmetic::div_mod::lemma_fundamental_div_mod_converse_div(n, 8, i, j);
            vstd::arithmetic::div_mod::lemma_fundamental_div_mod_converse_mod(n, 8, i, j);
            assert(sig[n] == (n / 8 < bytes.len() && sig_bit(bytes[n / 8], n % 8)));
        }
        if i < bytes.len() {
            let c = bytes[i];
            lemma_byte_decomposition(c);
            assert(two_pow(7) == 128 && two_pow(6) == 64 && two_pow(5) == 32 && two_pow(4) == 16
                && two_pow(3) == 8 && two_pow(2) == 4 && two_pow(1) == 2 && two_pow(0) == 1);
        }
    }
}

} // verus!
