//! The chip builders: orchestrate term placement, mode inference and the
//! configuration bit planes to populate a GAL from a blueprint.

use vstd::prelude::*;

verus! {

use vstd::pervasive::VecAdditionalExecFns;
use crate::blueprint::Active;
use crate::blueprint::Blueprint;
use crate::blueprint::OLMC;
use crate::blueprint::PinMode;
use crate::chips::Chip;
use crate::errors::Error;
use crate::errors::ErrorCode;
use crate::errors::at_line;
use crate::gal::Bounds;
use crate::gal::GAL;
use crate::gal::Mode;
use crate::gal::Term;
use crate::gal::all_fuses_intact;
use crate::gal::false_term;
use crate::gal::is_blank;
use crate::gal::fuse_after;
use crate::gal::mode_from_bits;
use crate::gal::opt_line;
use crate::gal::opt_rows;
use crate::gal::placed;
use crate::gal::rows_view;

/// Suffix of a pin's main equation: none (combinatorial), `.T`
/// (tristate) or `.R` (registered).
pub const SUFFIX_NON: i32 = 0;

pub const SUFFIX_T: i32 = 1;

pub const SUFFIX_R: i32 = 2;

/// A resolved pin reference: its number and whether it is negated.
#[derive(Clone, Copy, Debug, PartialEq, Eq, Structural)]
pub struct Pin {
    pub neg: i32,
    pub pin: usize,
}

pub open spec fn has_output(o: OLMC) -> bool {
    o.output is Some
}

pub open spec fn out_mode(o: OLMC) -> PinMode {
    (o.output->0).0
}

pub open spec fn is_registered(o: OLMC) -> bool {
    has_output(o) && out_mode(o) == PinMode::Registered
}

/// The rows the main placement of an OLMC writes: the output's term, or
/// the one-row false term when no output is driven.
pub open spec fn main_rows(o: OLMC) -> Seq<Seq<usize>> {
    match o.output {
        Some((_, t)) => rows_view(t),
        None => seq![Seq::<usize>::empty()],
    }
}

/// The diagnostic line of an OLMC's main placement.
pub open spec fn main_line(o: OLMC) -> u32 {
    match o.output {
        Some((_, t)) => t.line_num,
        None => 0,
    }
}

/// The row offset `tristate_adjust` computes for a driven output.
pub open spec fn adj_offset(chip: Chip, mode: Mode, output: Option<(PinMode, Term)>) -> int {
    match chip {
        Chip::GAL16V8 | Chip::GAL20V8 => {
            if mode != Mode::Mode1 && !(output matches Some((PinMode::Registered, _))) {
                1
            } else {
                0
            }
        }
        Chip::GAL22V10 => 1,
        Chip::GAL20RA10 => 4,
    }
}

/// The row offset of an OLMC's main placement: an undriven pin's false
/// term is placed without any reservation; a driven output skips the
/// rows `tristate_adjust` reserves. The mode matters only on the V8
/// chips.
pub open spec fn main_off(o: OLMC, chip: Chip, mode: Mode) -> int {
    match o.output {
        Some(_) => adj_offset(chip, mode, o.output),
        None => 0,
    }
}

/// The final value of the fuse at column `c` of row `k` of an OLMC's
/// region after the core placements: the main term starting at the
/// region's offset, and the tristate-enable term overlaid on row 0.
pub open spec fn core_fuse(o: OLMC, chip: Chip, mode: Mode, k: int, c: int) -> bool {
    let off = main_off(o, chip, mode);
    let base = if k < off {
        true
    } else {
        fuse_after(true, main_rows(o), k - off, c)
    };
    match o.tri_con {
        Some(tc) => if k == 0 {
            fuse_after(base, rows_view(tc), 0, c)
        } else {
            base
        },
        None => base,
    }
}

/// Both core placements of one OLMC fit their ranges.
pub open spec fn core_olmc_ok(o: OLMC, chip: Chip, mode: Mode, i: int) -> bool {
    &&& main_rows(o).len() <= chip.olmc_size(i) - main_off(o, chip, mode)
    &&& (o.tri_con matches Some(tc) ==> rows_view(tc).len() <= 1)
}

pub open spec fn core_ok(b: Blueprint, mode: Mode) -> bool {
    forall|i: int|
        0 <= i < b.olmcs@.len() ==> core_olmc_ok(#[trigger] b.olmcs@[i], b.chip, mode, i)
}

/// The error the core placement of one OLMC raises when it does not fit:
/// the main term's overflow is seen first, then the tristate term's.
pub open spec fn core_err(o: OLMC, chip: Chip, mode: Mode, i: int) -> Error {
    if main_rows(o).len() > chip.olmc_size(i) - main_off(o, chip, mode) {
        Error { code: ErrorCode::TooManyProductTerms, line: main_line(o) }
    } else {
        Error { code: ErrorCode::TooManyProductTerms, line: opt_line(o.tri_con) }
    }
}

/// The error of the first OLMC whose core placement fails, in order.
pub open spec fn core_err_witness(b: Blueprint, mode: Mode, e: Error) -> bool {
    exists|i: int|
        0 <= i < b.olmcs@.len() && !core_olmc_ok(#[trigger] b.olmcs@[i], b.chip, mode, i)
            && (forall|j: int| 0 <= j < i ==> core_olmc_ok(#[trigger] b.olmcs@[j], b.chip, mode, j))
            && e == core_err(b.olmcs@[i], b.chip, mode, i)
}

/// No 20RA10-only feature is used on this OLMC.
pub open spec fn olmc_ra10_clean(o: OLMC) -> bool {
    o.clock is None && o.arst is None && o.aprst is None
}

pub open spec fn all_ra10_clean(b: Blueprint) -> bool {
    forall|i: int| 0 <= i < b.olmcs@.len() ==> olmc_ra10_clean(#[trigger] b.olmcs@[i])
}

/// The error raised for an OLMC using a 20RA10-only feature: clock is
/// reported first, then async reset, then async preset.
pub open spec fn ra10_feature_err(o: OLMC) -> Error {
    if o.clock is Some {
        Error { code: ErrorCode::DisallowedCLK, line: opt_line(o.clock) }
    } else if o.arst is Some {
        Error { code: ErrorCode::DisallowedARST, line: opt_line(o.arst) }
    } else {
        Error { code: ErrorCode::DisallowedAPRST, line: opt_line(o.aprst) }
    }
}

pub open spec fn ra10_feature_err_witness(b: Blueprint, e: Error) -> bool {
    exists|i: int|
        0 <= i < b.olmcs@.len() && !olmc_ra10_clean(#[trigger] b.olmcs@[i]) && (forall|j: int|
            0 <= j < i ==> olmc_ra10_clean(#[trigger] b.olmcs@[j])) && e == ra10_feature_err(
            b.olmcs@[i],
        )
}

/// Does OLMC `i`'s driven output, if any, count its polarity as high?
pub open spec fn xor_cond(o: OLMC) -> bool {
    has_output(o) && o.active == Active::High
}

/// The tristate-control flag of one OLMC: set for a bare input used as
/// feedback, for a tristate output, and for a combinatorial output when
/// combinatorial outputs are realized as tristate.
pub open spec fn tri_flag(o: OLMC, com_is_tri: bool) -> bool {
    match o.output {
        None => o.feedback,
        Some((PinMode::Tristate, _)) => true,
        Some((PinMode::Combinatorial, _)) => com_is_tri,
        Some((PinMode::Registered, _)) => false,
    }
}

/// Deterministic three-level mode priority for the GAL16V8/20V8.
pub open spec fn mode_of(olmcs: Seq<OLMC>) -> Mode {
    if exists|i: int|
        0 <= i < 8 && has_output(#[trigger] olmcs[i]) && out_mode(olmcs[i])
            == PinMode::Registered {
        Mode::Mode3
    } else if exists|i: int|
        0 <= i < 8 && has_output(#[trigger] olmcs[i]) && out_mode(olmcs[i]) == PinMode::Tristate {
        Mode::Mode2
    } else if exists|i: int|
        0 <= i < 8 && (#[trigger] olmcs[i]).feedback && (if has_output(olmcs[i]) {
            true
        } else {
            i == 3 || i == 4
        }) {
        Mode::Mode2
    } else {
        Mode::Mode1
    }
}

/// The mode whose selector bits the built GAL carries: the inferred mode
/// on the V8 chips, and the blank selector bits elsewhere.
pub open spec fn build_mode(b: Blueprint) -> Mode {
    match b.chip {
        Chip::GAL16V8 | Chip::GAL20V8 => mode_of(b.olmcs@),
        _ => mode_from_bits(false, false),
    }
}

/// Which rows of the fuse matrix belong to some OLMC's region.
pub open spec fn covered(chip: Chip, r: int) -> bool {
    match chip {
        Chip::GAL22V10 => 1 <= r < 131,
        _ => true,
    }
}

/// The OLMC whose region holds row `r`.
pub open spec fn row_olmc(chip: Chip, r: int) -> int {
    match chip {
        Chip::GAL22V10 => {
            if r < 10 { 0 }
            else if r < 21 { 1 }
            else if r < 34 { 2 }
            else if r < 49 { 3 }
            else if r < 66 { 4 }
            else if r < 83 { 5 }
            else if r < 98 { 6 }
            else if r < 111 { 7 }
            else if r < 122 { 8 }
            else { 9 }
        }
        _ => r / 8,
    }
}

/// Row `r`'s index within its OLMC's region.
pub open spec fn row_k(chip: Chip, r: int) -> int {
    r - chip.olmc_start(row_olmc(chip, r))
}

/// A covered row lies inside the region `row_olmc` names.
pub proof fn lemma_row_bounds(chip: Chip, r: int)
    requires
        0 <= r < chip.rows(),
        covered(chip, r),
    ensures
        0 <= row_olmc(chip, r) < chip.olmcs(),
        0 <= row_k(chip, r) < chip.olmc_size(row_olmc(chip, r)),
        chip.olmc_start(row_olmc(chip, r)) + row_k(chip, r) == r,
{
}

/// `row_olmc` and `row_k` invert the region layout.
pub proof fn lemma_row_lookup(chip: Chip, i: int, k: int)
    requires
        0 <= i < chip.olmcs(),
        0 <= k < chip.olmc_size(i),
    ensures
        covered(chip, chip.olmc_start(i) + k),
        0 <= chip.olmc_start(i) + k < chip.rows(),
        row_olmc(chip, chip.olmc_start(i) + k) == i,
        row_k(chip, chip.olmc_start(i) + k) == k,
{
    let r = chip.olmc_start(i) + k;
    match chip {
        Chip::GAL22V10 => {}
        _ => {
            vstd::arithmetic::div_mod::lemma_fundamental_div_mod_converse_div(r, 8, i, k);
        }
    }
}

/// Powers of two up to `2^7`, for MSB-first bit extraction.
pub open spec fn two_pow(e: int) -> int {
    if e <= 0 { 1 }
    else if e == 1 { 2 }
    else if e == 2 { 4 }
    else if e == 3 { 8 }
    else if e == 4 { 16 }
    else if e == 5 { 32 }
    else if e == 6 { 64 }
    else { 128 }
}

/// Bit `j` of a signature byte, MSB first.
pub open spec fn sig_bit(c: u8, j: int) -> bool {
    ((c as int) / two_pow(7 - j)) % 2 == 1
}

/// The signature plane packs the signature bytes MSB-first, one byte per
/// eight bits, the rest clear.
pub open spec fn sig_plane_ok(bytes: Seq<u8>, sig: Seq<bool>) -> bool {
    forall|n: int|
        0 <= n < 64 ==> #[trigger] sig[n] == (n / 8 < bytes.len() && sig_bit(bytes[n / 8], n % 8))
}

/// `2^(7 - j)`, the weight of signature bit `j` of its byte.
fn msb_weight(j: usize) -> (p: u8)
    requires
        j < 8,
    ensures
        p as int == two_pow(7 - j),
        p >= 1,
{
    if j == 0 { 128 }
    else if j == 1 { 64 }
    else if j == 2 { 32 }
    else if j == 3 { 16 }
    else if j == 4 { 8 }
    else if j == 5 { 4 }
    else if j == 6 { 2 }
    else { 1 }
}

/// Pack the blueprint's signature bytes into the GAL's signature plane,
/// MSB first. Bits beyond the signature's length are left as they are.
pub fn set_sig(blueprint: &Blueprint, gal: &mut GAL)
    requires
        old(gal).wf(),
        blueprint.sig@.len() <= 8,
    ensures
        final(gal).wf(),
        *final(gal) == (GAL { sig: final(gal).sig, ..*old(gal) }),
        final(gal).sig@.len() == 64,
        forall|n: int|
            0 <= n < 64 ==> #[trigger] final(gal).sig@[n] == (if n / 8 < blueprint.sig@.len() {
                sig_bit(blueprint.sig@[n / 8], n % 8)
            } else {
                old(gal).sig@[n]
            }),
{
    let len = blueprint.sig.len();
    let mut i: usize = 0;
    while i < len
        invariant
            old(gal).wf(),
            gal.wf(),
            *gal == (GAL { sig: gal.sig, ..*old(gal) }),
            len == blueprint.sig@.len() <= 8,
            0 <= i <= len,
            forall|n: int|
                0 <= n < 64 ==> #[trigger] gal.sig@[n] == (if n / 8 < i {
                    sig_bit(blueprint.sig@[n / 8], n % 8)
                } else {
                    old(gal).sig@[n]
                }),
        decreases len - i,
    {
        let c = blueprint.sig[i];
        let mut j: usize = 0;
        while j < 8
            invariant
                old(gal).wf(),
                gal.wf(),
                *gal == (GAL { sig: gal.sig, ..*old(gal) }),
                len == blueprint.sig@.len() <= 8,
                0 <= i < len,
                c == blueprint.sig@[i as int],
                0 <= j <= 8,
                forall|n: int|
                    0 <= n < 64 ==> #[trigger] gal.sig@[n] == (if n / 8 < i || (n / 8 == i && n % 8
                        < j) {
                        sig_bit(blueprint.sig@[n / 8], n % 8)
                    } else {
                        old(gal).sig@[n]
                    }),
            decreases 8 - j,
        {
            let p = msb_weight(j);
            let bitv = (c / p) % 2 == 1;
            let n = i * 8 + j;
            proof {
                vstd::arithmetic::div_mod::lemma_fundamental_div_mod_converse_div(
                    n as int, 8, i as int, j as int);
                vstd::arithmetic::div_mod::lemma_fundamental_div_mod_converse_mod(
                    n as int, 8, i as int, j as int);
            }
            gal.sig.set(n, bitv);
            j += 1;
        }
        i += 1;
    }
}

/// Adjust the bounds for the main term when the first row of the region
/// is reserved for a tristate enable term: on the V8 chips the row is
/// reserved except in Mode 1 and for registered outputs; the 22V10
/// always reserves it; the 20RA10 reserves four rows (tristate, clock,
/// async reset, async preset).
pub fn tristate_adjust(gal: &GAL, output: &Option<(PinMode, Term)>, bounds: &Bounds) -> (b: Bounds)
    ensures
        ({
            let a = adj_offset(gal.chip, mode_from_bits(gal.syn, gal.ac0), *output);
            b == (Bounds {
                row_offset: if a == 0 { bounds.row_offset } else { a as usize },
                ..*bounds
            })
        }),
{
    match gal.chip {
        Chip::GAL16V8 | Chip::GAL20V8 => {
            let reg_out = matches!(output, Some((PinMode::Registered, _)));
            let mode = gal.get_mode();
            if !matches!(mode, Mode::Mode1) && !reg_out {
                Bounds { row_offset: 1, ..*bounds }
            } else {
                *bounds
            }
        }
        Chip::GAL22V10 => Bounds { row_offset: 1, ..*bounds },
        Chip::GAL20RA10 => Bounds { row_offset: 4, ..*bounds },
    }
}

/// Check that no 20RA10-only feature (per-OLMC clock, async reset or
/// async preset) is used on another chip; report the first offender.
pub fn check_not_gal20ra10(blueprint: &Blueprint) -> (res: Result<(), Error>)
    ensures
        res is Ok <==> all_ra10_clean(*blueprint),
        res matches Err(e) ==> ra10_feature_err_witness(*blueprint, e),
{
    let num = blueprint.olmcs.len();
    let mut i: usize = 0;
    while i < num
        invariant
            num == blueprint.olmcs@.len(),
            0 <= i <= num,
            forall|j: int| 0 <= j < i ==> olmc_ra10_clean(#[trigger] blueprint.olmcs@[j]),
        decreases num - i,
    {
        let olmc = &blueprint.olmcs[i];
        if let Some(term) = &olmc.clock {
            return at_line(term.line_num, Err(ErrorCode::DisallowedCLK));
        }
        if let Some(term) = &olmc.arst {
            return at_line(term.line_num, Err(ErrorCode::DisallowedARST));
        }
        if let Some(term) = &olmc.aprst {
            return at_line(term.line_num, Err(ErrorCode::DisallowedAPRST));
        }
        i += 1;
    }
    Ok(())
}

/// Set the XOR polarity bits: one per OLMC with a driven, active-high
/// output, at the reversed index the fuse-map topology dictates.
pub fn set_xors(gal: &mut GAL, blueprint: &Blueprint)
    requires
        old(gal).wf(),
        blueprint.olmcs@.len() == old(gal).xor@.len(),
        forall|k: int| 0 <= k < old(gal).xor@.len() ==> #[trigger] old(gal).xor@[k] == false,
    ensures
        final(gal).wf(),
        *final(gal) == (GAL { xor: final(gal).xor, ..*old(gal) }),
        final(gal).xor@.len() == old(gal).xor@.len(),
        forall|j: int|
            0 <= j < final(gal).xor@.len() ==> final(gal).xor@[final(gal).xor@.len() - 1 - j]
                == xor_cond(#[trigger] blueprint.olmcs@[j]),
{
    let num_olmcs = blueprint.olmcs.len();
    let mut i: usize = 0;
    while i < num_olmcs
        invariant
            old(gal).wf(),
            gal.wf(),
            *gal == (GAL { xor: gal.xor, ..*old(gal) }),
            num_olmcs == blueprint.olmcs@.len() == old(gal).xor@.len(),
            gal.xor@.len() == num_olmcs,
            0 <= i <= num_olmcs,
            forall|j: int|
                0 <= j < num_olmcs ==> gal.xor@[num_olmcs - 1 - j] == (j < i && xor_cond(
                    #[trigger] blueprint.olmcs@[j],
                )),
        decreases num_olmcs - i,
    {
        let ghost prev = gal.xor@;
        let olmc = &blueprint.olmcs[i];
        let cond = olmc.output.is_some() && matches!(olmc.active, Active::High);
        proof {
            assert(cond == xor_cond(blueprint.olmcs@[i as int]));
        }
        if cond {
            gal.xor.set(num_olmcs - 1 - i, true);
        }
        proof {
            assert(gal.xor@.len() == prev.len());
        }
        i += 1;
    }
}

/// Build the tristate-control flags (`ac1` on the V8 chips, `s1` on the
/// 22V10), reversed as the XOR bits are.
pub fn build_tristate_flags(flags: &mut Vec<bool>, blueprint: &Blueprint, com_is_tri: bool)
    requires
        blueprint.olmcs@.len() == old(flags)@.len(),
        forall|k: int| 0 <= k < old(flags)@.len() ==> #[trigger] old(flags)@[k] == false,
    ensures
        final(flags)@.len() == old(flags)@.len(),
        forall|j: int|
            0 <= j < final(flags)@.len() ==> final(flags)@[final(flags)@.len() - 1 - j] == tri_flag(
                #[trigger] blueprint.olmcs@[j],
                com_is_tri,
            ),
{
    let num_olmcs = blueprint.olmcs.len();
    let mut i: usize = 0;
    while i < num_olmcs
        invariant
            num_olmcs == blueprint.olmcs@.len() == old(flags)@.len(),
            flags@.len() == num_olmcs,
            0 <= i <= num_olmcs,
            forall|j: int|
                0 <= j < num_olmcs ==> flags@[num_olmcs - 1 - j] == (j < i && tri_flag(
                    #[trigger] blueprint.olmcs@[j],
                    com_is_tri,
                )),
        decreases num_olmcs - i,
    {
        let ghost prev = flags@;
        let olmc = &blueprint.olmcs[i];
        let is_tristate = match &olmc.output {
            None => olmc.feedback,
            Some((PinMode::Tristate, _)) => true,
            Some((PinMode::Combinatorial, _)) => com_is_tri,
            Some((PinMode::Registered, _)) => false,
        };
        proof {
            assert(is_tristate == tri_flag(blueprint.olmcs@[i as int], com_is_tri));
        }
        if is_tristate {
            flags.set(num_olmcs - 1 - i, true);
        }
        proof {
            assert forall|j: int| 0 <= j < num_olmcs implies flags@[num_olmcs - 1 - j] == (j < i + 1
                && tri_flag(#[trigger] blueprint.olmcs@[j], com_is_tri)) by {
                if j != i {
                    assert(num_olmcs - 1 - j != num_olmcs - 1 - i);
                    assert(flags@[num_olmcs - 1 - j] == prev[num_olmcs - 1 - j]);
                }
            }
        }
        i += 1;
    }
}

/// Disable all product-term-disable bits: the core does not mask
/// individual product terms on the V8 chips.
pub fn set_pts(gal: &mut GAL)
    requires
        old(gal).wf(),
    ensures
        final(gal).wf(),
        *final(gal) == (GAL { pt: final(gal).pt, ..*old(gal) }),
        final(gal).pt@.len() == 64,
        forall|k: int| 0 <= k < 64 ==> #[trigger] final(gal).pt@[k] == true,
{
    let mut i: usize = 0;
    while i < 64
        invariant
            old(gal).wf(),
            gal.wf(),
            *gal == (GAL { pt: gal.pt, ..*old(gal) }),
            gal.pt@.len() == 64,
            0 <= i <= 64,
            forall|k: int| 0 <= k < i ==> #[trigger] gal.pt@[k] == true,
        decreases 64 - i,
    {
        gal.pt.set(i, true);
        i += 1;
    }
}

/// Pick the GAL16V8/20V8 operating mode from the OLMC roles:
/// a registered output forces Mode 3; else a tristate output forces
/// Mode 2; else a Mode-1 incompatibility (OLMC 3 or 4 used as bare
/// input, or any OLMC used as combinatorial feedback) forces Mode 2;
/// else Mode 1.
pub fn get_mode_v8(olmcs: &Vec<OLMC>) -> (m: Mode)
    requires
        olmcs@.len() >= 8,
    ensures
        m == mode_of(olmcs@),
{
    // If there's a registered pin, it's mode 3.
    let mut n: usize = 0;
    while n < 8
        invariant
            olmcs@.len() >= 8,
            n <= 8,
            forall|i: int|
                0 <= i < n ==> !(has_output(#[trigger] olmcs@[i]) && out_mode(olmcs@[i])
                    == PinMode::Registered),
        decreases 8 - n,
    {
        if matches!(&olmcs[n].output, Some((PinMode::Registered, _))) {
            return Mode::Mode3;
        }
        n += 1;
    }
    // If there's a tristate, it's mode 2.
    let mut n: usize = 0;
    while n < 8
        invariant
            olmcs@.len() >= 8,
            n <= 8,
            forall|i: int|
                0 <= i < 8 ==> !(has_output(#[trigger] olmcs@[i]) && out_mode(olmcs@[i])
                    == PinMode::Registered),
            forall|i: int|
                0 <= i < n ==> !(has_output(#[trigger] olmcs@[i]) && out_mode(olmcs@[i])
                    == PinMode::Tristate),
        decreases 8 - n,
    {
        if matches!(&olmcs[n].output, Some((PinMode::Tristate, _))) {
            return Mode::Mode2;
        }
        n += 1;
    }
    // If we can't use mode 1, use mode 2.
    let mut n: usize = 0;
    while n < 8
        invariant
            olmcs@.len() >= 8,
            n <= 8,
            forall|i: int|
                0 <= i < 8 ==> !(has_output(#[trigger] olmcs@[i]) && out_mode(olmcs@[i])
                    == PinMode::Registered),
            forall|i: int|
                0 <= i < 8 ==> !(has_output(#[trigger] olmcs@[i]) && out_mode(olmcs@[i])
                    == PinMode::Tristate),
            forall|i: int|
                0 <= i < n ==> !((#[trigger] olmcs@[i]).feedback && (if has_output(olmcs@[i]) {
                    true
                } else {
                    i == 3 || i == 4
                })),
        decreases 8 - n,
    {
        // Some OLMCs cannot be configured as pure inputs in Mode 1.
        if olmcs[n].feedback && olmcs[n].output.is_none() {
            if n == 3 || n == 4 {
                return Mode::Mode2;
            }
        }
        // OLMC pins cannot be used as combinatorial feedback in Mode 1.
        if olmcs[n].feedback && olmcs[n].output.is_some() {
            return Mode::Mode2;
        }
        n += 1;
    }
    // If there is still no mode defined, use mode 1.
    Mode::Mode1
}

/// The fuse matrix after the core placements of every OLMC: each
/// region's rows follow `core_fuse`; rows of no region (the 22V10's AR
/// and SP rows) are still intact.
pub open spec fn core_fuses_done(b: Blueprint, mode: Mode, g: GAL) -> bool {
    forall|r: int, c: int|
        0 <= r < b.chip.rows() && 0 <= c < b.chip.cols() ==> #[trigger] g.fuse(r, c) == (if covered(
            b.chip,
            r,
        ) {
            core_fuse(b.olmcs@[row_olmc(b.chip, r)], b.chip, mode, row_k(b.chip, r), c)
        } else {
            true
        })
}

/// Place every OLMC's main term (or the false term when the pin drives
/// no output) and its tristate-enable term into the fuse matrix.
#[verifier::rlimit(60)]
pub fn set_core_eqns(gal: &mut GAL, blueprint: &Blueprint) -> (res: Result<(), Error>)
    requires
        old(gal).wf(),
        blueprint.wf(),
        old(gal).chip == blueprint.chip,
        all_fuses_intact(*old(gal)),
    ensures
        final(gal).wf(),
        *final(gal) == (GAL { fuses: final(gal).fuses, ..*old(gal) }),
        res is Ok <==> core_ok(*blueprint, mode_from_bits(old(gal).syn, old(gal).ac0)),
        res matches Err(e) ==> core_err_witness(
            *blueprint,
            mode_from_bits(old(gal).syn, old(gal).ac0),
            e,
        ),
        res is Ok ==> core_fuses_done(
            *blueprint,
            mode_from_bits(old(gal).syn, old(gal).ac0),
            *final(gal),
        ),
{
    let ghost m = mode_from_bits(old(gal).syn, old(gal).ac0);
    let num = blueprint.olmcs.len();
    let mut i: usize = 0;
    while i < num
        invariant
            old(gal).wf(),
            gal.wf(),
            blueprint.wf(),
            gal.chip == blueprint.chip,
            *gal == (GAL { fuses: gal.fuses, ..*old(gal) }),
            all_fuses_intact(*old(gal)),
            m == mode_from_bits(gal.syn, gal.ac0),
            num == blueprint.olmcs@.len() == gal.chip.olmcs(),
            0 <= i <= num,
            forall|j: int|
                0 <= j < i ==> core_olmc_ok(#[trigger] blueprint.olmcs@[j], gal.chip, m, j),
            forall|r: int, c: int|
                0 <= r < gal.chip.rows() && 0 <= c < gal.chip.cols() ==> #[trigger] gal.fuse(r, c)
                    == (if covered(gal.chip, r) && row_olmc(gal.chip, r) < i {
                    core_fuse(
                        blueprint.olmcs@[row_olmc(gal.chip, r)],
                        gal.chip,
                        m,
                        row_k(gal.chip, r),
                        c,
                    )
                } else {
                    true
                }),
        decreases num - i,
    {
        let ghost g_top = *gal;
        proof {
            gal.chip.lemma_region_in_matrix(i as int);
            assert(gal.chip.olmc_size(i as int) >= 8);
        }
        let bounds = gal.chip.get_bounds(i);
        let olmc = &blueprint.olmcs[i];
        let ghost o = blueprint.olmcs@[i as int];
        let ghost start = gal.chip.olmc_start(i as int);
        let ghost sz = gal.chip.olmc_size(i as int);
        let ghost moff = main_off(o, gal.chip, m);
        match &olmc.output {
            Some((_, term)) => {
                let adj = tristate_adjust(gal, &olmc.output, &bounds);
                let r0 = gal.add_term(term, &adj);
                if let Err(e) = r0 {
                    proof {
                        assert(main_rows(o) == rows_view(*term));
                        assert(!core_olmc_ok(o, gal.chip, m, i as int));
                        assert(e == core_err(o, gal.chip, m, i as int));
                        assert(core_err_witness(*blueprint, m, e));
                    }
                    return Err(e);
                }
                proof {
                    assert(placed(g_top, *gal, main_rows(o), start + moff, start + sz));
                }
            }
            None => {
                let ft = false_term(0);
                let r0 = gal.add_term(&ft, &bounds);
                if let Err(e) = r0 {
                    proof {
                        assert(false);
                    }
                    return Err(e);
                }
                proof {
                    assert(rows_view(ft)[0] =~= Seq::<usize>::empty());
                    assert(rows_view(ft) =~= main_rows(o));
                    assert(moff == 0);
                    assert(placed(g_top, *gal, main_rows(o), start + moff, start + sz));
                }
            }
        }
        let ghost g_mid = *gal;
        if let Some(term) = &olmc.tri_con {
            let tb = Bounds { start_row: bounds.start_row, max_row: 1, row_offset: 0 };
            let r1 = gal.add_term(term, &tb);
            if let Err(e) = r1 {
                proof {
                    assert(!core_olmc_ok(o, gal.chip, m, i as int));
                    assert(e == core_err(o, gal.chip, m, i as int));
                    assert(core_err_witness(*blueprint, m, e));
                }
                return Err(e);
            }
            proof {
                assert(placed(g_mid, *gal, rows_view(*term), start, start + 1));
            }
        }
        proof {
            let chip = gal.chip;
            assert(core_olmc_ok(o, chip, m, i as int));
            assert forall|r: int, c: int|
                0 <= r < chip.rows() && 0 <= c < chip.cols() implies #[trigger] gal.fuse(r, c) == (
            if covered(chip, r) && row_olmc(chip, r) < i + 1 {
                core_fuse(blueprint.olmcs@[row_olmc(chip, r)], chip, m, row_k(chip, r), c)
            } else {
                true
            }) by {
                if start <= r < start + sz {
                    lemma_row_lookup(chip, i as int, r - start);
                    let kk = r - start;
                    assert(g_top.fuse(r, c) == true);
                    if kk >= moff {
                        assert(g_mid.fuse(r, c) == fuse_after(
                            g_top.fuse(r, c),
                            main_rows(o),
                            kk - moff,
                            c,
                        ));
                    } else {
                        assert(g_mid.fuses@[r] == g_top.fuses@[r]);
                        assert(g_mid.fuse(r, c) == true);
                    }
                    if o.tri_con is Some {
                        if kk == 0 {
                            assert(gal.fuse(r, c) == fuse_after(
                                g_mid.fuse(r, c),
                                rows_view(o.tri_con->0),
                                0,
                                c,
                            ));
                        } else {
                            assert(gal.fuses@[r] == g_mid.fuses@[r]);
                            assert(gal.fuse(r, c) == g_mid.fuse(r, c));
                        }
                    } else {
                        assert(*gal == g_mid);
                    }
                    assert(gal.fuse(r, c) == core_fuse(o, chip, m, kk, c));
                } else {
                    assert(g_mid.fuses@[r] == g_top.fuses@[r]);
                    assert(gal.fuses@[r] == g_mid.fuses@[r]);
                    assert(gal.fuse(r, c) == g_top.fuse(r, c));
                    if covered(chip, r) {
                        lemma_row_bounds(chip, r);
                        let io = row_olmc(chip, r);
                        if io < i as int {
                            chip.lemma_regions_ordered(io, i as int);
                        } else if io > i as int {
                            chip.lemma_regions_ordered(i as int, io);
                        }
                        assert(io != i as int);
                    }
                }
            }
        }
        i += 1;
    }
    Ok(())
}

/// The GAL20RA10 auxiliary placements of one OLMC fit their single
/// rows, and a registered output has its clock.
pub open spec fn aux_olmc_ok(o: OLMC) -> bool {
    has_output(o) ==> {
        &&& is_registered(o) ==> opt_rows(o.arst).len() <= 1 && opt_rows(o.aprst).len() <= 1
            && o.clock is Some
        &&& opt_rows(o.clock).len() <= 1
    }
}

pub open spec fn aux_all_ok(b: Blueprint) -> bool {
    forall|i: int| 0 <= i < b.olmcs@.len() ==> aux_olmc_ok(#[trigger] b.olmcs@[i])
}

/// The error the auxiliary placements of one OLMC raise, in the order
/// the placements run: async reset, async preset, the missing clock,
/// the clock term itself.
pub open spec fn aux_err(o: OLMC) -> Error {
    if is_registered(o) && opt_rows(o.arst).len() > 1 {
        Error { code: ErrorCode::TooManyProductTerms, line: opt_line(o.arst) }
    } else if is_registered(o) && opt_rows(o.aprst).len() > 1 {
        Error { code: ErrorCode::TooManyProductTerms, line: opt_line(o.aprst) }
    } else if is_registered(o) && o.clock is None {
        Error { code: ErrorCode::NoCLK, line: main_line(o) }
    } else {
        Error { code: ErrorCode::TooManyProductTerms, line: opt_line(o.clock) }
    }
}

pub open spec fn aux_err_witness(b: Blueprint, e: Error) -> bool {
    exists|i: int|
        0 <= i < b.olmcs@.len() && !aux_olmc_ok(#[trigger] b.olmcs@[i]) && (forall|j: int|
            0 <= j < i ==> aux_olmc_ok(#[trigger] b.olmcs@[j])) && e == aux_err(b.olmcs@[i])
}

/// How the GAL20RA10 auxiliary placements rewrite one fuse, given its
/// value after the core placements: row 1 of a driven OLMC's region
/// holds the clock term, rows 2 and 3 of a registered OLMC's region the
/// async reset and preset terms.
pub open spec fn ra10_aux_fuse(o: OLMC, oldv: bool, k: int, c: int) -> bool {
    if has_output(o) && k == 1 {
        fuse_after(oldv, opt_rows(o.clock), 0, c)
    } else if is_registered(o) && k == 2 {
        fuse_after(oldv, opt_rows(o.arst), 0, c)
    } else if is_registered(o) && k == 3 {
        fuse_after(oldv, opt_rows(o.aprst), 0, c)
    } else {
        oldv
    }
}

/// Place the GAL20RA10's per-OLMC clock, async reset and async preset
/// terms, and require a clock for every registered output.
#[verifier::rlimit(60)]
pub fn set_aux_eqns(gal: &mut GAL, blueprint: &Blueprint) -> (res: Result<(), Error>)
    requires
        old(gal).wf(),
        blueprint.wf(),
        old(gal).chip == blueprint.chip,
        blueprint.chip == Chip::GAL20RA10,
    ensures
        final(gal).wf(),
        *final(gal) == (GAL { fuses: final(gal).fuses, ..*old(gal) }),
        res is Ok <==> aux_all_ok(*blueprint),
        res matches Err(e) ==> aux_err_witness(*blueprint, e),
        res is Ok ==> forall|r: int, c: int|
            0 <= r < 80 && 0 <= c < 40 ==> final(gal).fuse(r, c) == ra10_aux_fuse(
                blueprint.olmcs@[r / 8],
                #[trigger] old(gal).fuse(r, c),
                r % 8,
                c,
            ),
{
    let num = blueprint.olmcs.len();
    let mut i: usize = 0;
    while i < num
        invariant
            old(gal).wf(),
            gal.wf(),
            blueprint.wf(),
            gal.chip == blueprint.chip,
            blueprint.chip == Chip::GAL20RA10,
            *gal == (GAL { fuses: gal.fuses, ..*old(gal) }),
            num == blueprint.olmcs@.len() == 10,
            0 <= i <= num,
            forall|j: int| 0 <= j < i ==> aux_olmc_ok(#[trigger] blueprint.olmcs@[j]),
            forall|r: int, c: int|
                0 <= r < 80 && 0 <= c < 40 ==> gal.fuse(r, c) == (if r / 8 < i {
                    ra10_aux_fuse(blueprint.olmcs@[r / 8], #[trigger] old(gal).fuse(r, c), r % 8, c)
                } else {
                    old(gal).fuse(r, c)
                }),
        decreases num - i,
    {
        let ghost g_top = *gal;
        let bounds = gal.chip.get_bounds(i);
        let olmc = &blueprint.olmcs[i];
        let ghost o = blueprint.olmcs@[i as int];
        let ghost start = 8 * i as int;
        let has_out = olmc.output.is_some();
        let registered = matches!(&olmc.output, Some((PinMode::Registered, _)));
        proof {
            assert(has_out == has_output(o));
            assert(registered == is_registered(o));
        }
        if registered {
            let arst_bounds = Bounds { row_offset: 2, max_row: 3, ..bounds };
            let r0 = gal.add_term_opt(&olmc.arst, &arst_bounds);
            if let Err(e) = r0 {
                proof {
                    assert(e == aux_err(o));
                    assert(aux_err_witness(*blueprint, e));
                }
                return Err(e);
            }
        }
        let ghost g_a = *gal;
        if registered {
            let aprst_bounds = Bounds { row_offset: 3, max_row: 4, ..bounds };
            let r1 = gal.add_term_opt(&olmc.aprst, &aprst_bounds);
            if let Err(e) = r1 {
                proof {
                    assert(e == aux_err(o));
                    assert(aux_err_witness(*blueprint, e));
                }
                return Err(e);
            }
            if olmc.clock.is_none() {
                match &olmc.output {
                    Some((_, term)) => {
                        proof {
                            assert(aux_err(o) == (Error {
                                code: ErrorCode::NoCLK,
                                line: term.line_num,
                            }));
                            assert(aux_err_witness(
                                *blueprint,
                                Error { code: ErrorCode::NoCLK, line: term.line_num },
                            ));
                        }
                        return at_line(term.line_num, Err(ErrorCode::NoCLK));
                    }
                    None => {
                        // A registered pin always has an output.
                        proof {
                            assert(false);
                        }
                        return Ok(());
                    }
                }
            }
        }
        let ghost g_b = *gal;
        if has_out {
            let clock_bounds = Bounds { row_offset: 1, max_row: 2, ..bounds };
            let r2 = gal.add_term_opt(&olmc.clock, &clock_bounds);
            if let Err(e) = r2 {
                proof {
                    assert(e == aux_err(o));
                    assert(aux_err_witness(*blueprint, e));
                }
                return Err(e);
            }
        }
        proof {
            assert(aux_olmc_ok(o));
            assert forall|r: int, c: int| 0 <= r < 80 && 0 <= c < 40 implies gal.fuse(r, c) == (
            if r / 8 < i + 1 {
                ra10_aux_fuse(blueprint.olmcs@[r / 8], old(gal).fuse(r, c), r % 8, c)
            } else {
                old(gal).fuse(r, c)
            }) by {
                vstd::arithmetic::div_mod::lemma_fundamental_div_mod_converse_div(
                    r,
                    8,
                    r / 8,
                    r % 8,
                );
                if start <= r < start + 8 {
                    assert(r / 8 == i as int);
                    let kk = r % 8;
                    if is_registered(o) && kk == 2 {
                        assert(g_a.fuse(r, c) == fuse_after(
                            g_top.fuse(r, c),
                            opt_rows(o.arst),
                            0,
                            c,
                        ));
                        assert(g_b.fuses@[r] == g_a.fuses@[r]);
                        assert(gal.fuses@[r] == g_b.fuses@[r]);
                        assert(gal.fuse(r, c) == g_a.fuse(r, c));
                    } else if is_registered(o) && kk == 3 {
                        assert(g_a.fuses@[r] == g_top.fuses@[r]);
                        assert(g_a.fuse(r, c) == g_top.fuse(r, c));
                        assert(g_b.fuse(r, c) == fuse_after(
                            g_a.fuse(r, c),
                            opt_rows(o.aprst),
                            0,
                            c,
                        ));
                        assert(gal.fuses@[r] == g_b.fuses@[r]);
                        assert(gal.fuse(r, c) == g_b.fuse(r, c));
                    } else if has_output(o) && kk == 1 {
                        assert(g_a.fuses@[r] == g_top.fuses@[r]);
                        assert(g_b.fuses@[r] == g_a.fuses@[r]);
                        assert(g_b.fuse(r, c) == g_top.fuse(r, c));
                        assert(gal.fuse(r, c) == fuse_after(
                            g_b.fuse(r, c),
                            opt_rows(o.clock),
                            0,
                            c,
                        ));
                    } else {
                        assert(g_a.fuses@[r] == g_top.fuses@[r]);
                        assert(g_b.fuses@[r] == g_a.fuses@[r]);
                        assert(gal.fuses@[r] == g_b.fuses@[r]);
                        assert(gal.fuse(r, c) == g_top.fuse(r, c));
                    }
                } else {
                    assert(g_a.fuses@[r] == g_top.fuses@[r]);
                    assert(g_b.fuses@[r] == g_a.fuses@[r]);
                    assert(gal.fuses@[r] == g_b.fuses@[r]);
                    assert(gal.fuse(r, c) == g_top.fuse(r, c));
                }
            }
        }
        i += 1;
    }
    Ok(())
}

/// Place the 22V10's global async-reset term into absolute row 0 and
/// its sync-preset term into absolute row 131, each a single row.
pub fn set_arsp_eqns(gal: &mut GAL, blueprint: &Blueprint) -> (res: Result<(), Error>)
    requires
        old(gal).wf(),
        blueprint.wf(),
        old(gal).chip == blueprint.chip,
        blueprint.chip == Chip::GAL22V10,
    ensures
        final(gal).wf(),
        *final(gal) == (GAL { fuses: final(gal).fuses, ..*old(gal) }),
        res is Ok <==> (opt_rows(blueprint.ar).len() <= 1 && opt_rows(blueprint.sp).len() <= 1),
        res matches Err(e) ==> (if opt_rows(blueprint.ar).len() > 1 {
            e == (Error { code: ErrorCode::TooManyProductTerms, line: opt_line(blueprint.ar) })
        } else {
            opt_rows(blueprint.sp).len() > 1 && e == (Error {
                code: ErrorCode::TooManyProductTerms,
                line: opt_line(blueprint.sp),
            })
        }),
        res is Ok ==> forall|r: int, c: int|
            0 <= r < 132 && 0 <= c < 44 ==> final(gal).fuse(r, c) == (if r == 0 {
                fuse_after(#[trigger] old(gal).fuse(r, c), opt_rows(blueprint.ar), 0, c)
            } else if r == 131 {
                fuse_after(old(gal).fuse(r, c), opt_rows(blueprint.sp), 0, c)
            } else {
                old(gal).fuse(r, c)
            }),
{
    let ghost g_top = *gal;
    // AR
    let ar_bounds = Bounds { start_row: 0, max_row: 1, row_offset: 0 };
    let r0 = gal.add_term_opt(&blueprint.ar, &ar_bounds);
    if let Err(e) = r0 {
        return Err(e);
    }
    let ghost g_mid = *gal;
    // SP
    let sp_bounds = Bounds { start_row: 131, max_row: 1, row_offset: 0 };
    let r1 = gal.add_term_opt(&blueprint.sp, &sp_bounds);
    if let Err(e) = r1 {
        return Err(e);
    }
    proof {
        assert forall|r: int, c: int| 0 <= r < 132 && 0 <= c < 44 implies gal.fuse(r, c) == (if r
            == 0 {
            fuse_after(g_top.fuse(r, c), opt_rows(blueprint.ar), 0, c)
        } else if r == 131 {
            fuse_after(g_mid.fuse(r, c), opt_rows(blueprint.sp), 0, c)
        } else {
            g_top.fuse(r, c)
        }) by {
            if r == 0 {
                assert(g_mid.fuse(r, c) == fuse_after(g_top.fuse(r, c), opt_rows(blueprint.ar), 0, c));
                assert(gal.fuses@[r] == g_mid.fuses@[r]);
            } else if r == 131 {
                assert(g_mid.fuses@[r] == g_top.fuses@[r]);
                assert(gal.fuse(r, c) == fuse_after(g_mid.fuse(r, c), opt_rows(blueprint.sp), 0, c));
            } else {
                assert(g_mid.fuses@[r] == g_top.fuses@[r]);
                assert(gal.fuses@[r] == g_mid.fuses@[r]);
            }
        }
        assert forall|r: int, c: int| 0 <= r < 132 && 0 <= c < 44 && r == 131 implies gal.fuse(
            r,
            c,
        ) == fuse_after(g_top.fuse(r, c), opt_rows(blueprint.sp), 0, c) by {
            assert(g_mid.fuses@[r] == g_top.fuses@[r]);
            assert(g_mid.fuse(r, c) == g_top.fuse(r, c));
        }
    }
    Ok(())
}

/// The final value of a 22V10 fuse: the AR term in row 0, the SP term
/// in row 131, the core placements everywhere else.
pub open spec fn v10_fuse(b: Blueprint, r: int, c: int) -> bool {
    if r == 0 {
        fuse_after(true, opt_rows(b.ar), 0, c)
    } else if r == 131 {
        fuse_after(true, opt_rows(b.sp), 0, c)
    } else {
        core_fuse(b.olmcs@[row_olmc(b.chip, r)], b.chip, build_mode(b), row_k(b.chip, r), c)
    }
}

/// The final value of a 20RA10 fuse: the clock, async-reset and
/// async-preset rows of a driven OLMC's region, the core placements
/// everywhere else.
pub open spec fn ra10_fuse(b: Blueprint, r: int, c: int) -> bool {
    let o = b.olmcs@[r / 8];
    let k = r % 8;
    if has_output(o) && k == 1 {
        fuse_after(true, opt_rows(o.clock), 0, c)
    } else if is_registered(o) && k == 2 {
        fuse_after(true, opt_rows(o.arst), 0, c)
    } else if is_registered(o) && k == 3 {
        fuse_after(true, opt_rows(o.aprst), 0, c)
    } else {
        core_fuse(o, b.chip, build_mode(b), k, c)
    }
}

/// The final value of every fuse of a successful build, as a function
/// of the blueprint alone.
pub open spec fn expected_fuse(b: Blueprint, r: int, c: int) -> bool {
    match b.chip {
        Chip::GAL16V8 | Chip::GAL20V8 => core_fuse(
            b.olmcs@[row_olmc(b.chip, r)],
            b.chip,
            build_mode(b),
            row_k(b.chip, r),
            c,
        ),
        Chip::GAL22V10 => v10_fuse(b, r, c),
        Chip::GAL20RA10 => ra10_fuse(b, r, c),
    }
}

/// The S1 tristate-control bit a successful build leaves for OLMC `j`,
/// before index reversal: set only on the 22V10, where combinatorial
/// outputs are always realized as tristate.
pub open spec fn s1_expected(b: Blueprint, j: int) -> bool {
    b.chip == Chip::GAL22V10 && tri_flag(b.olmcs@[j], true)
}

/// The complete description of the GAL a successful build returns:
/// every fuse and every configuration bit is a function of the
/// blueprint alone.
pub open spec fn gal_matches(b: Blueprint, g: GAL) -> bool {
    &&& g.chip == b.chip
    &&& g.wf()
    &&& forall|r: int, c: int|
        0 <= r < b.chip.rows() && 0 <= c < b.chip.cols() ==> #[trigger] g.fuse(r, c)
            == expected_fuse(b, r, c)
    &&& sig_plane_ok(b.sig@, g.sig@)
    &&& forall|j: int|
        0 <= j < b.chip.olmcs() ==> g.xor@[b.chip.olmcs() - 1 - j] == xor_cond(
            #[trigger] b.olmcs@[j],
        )
    &&& forall|j: int|
        0 <= j < 8 ==> g.ac1@[7 - j] == ((b.chip == Chip::GAL16V8 || b.chip == Chip::GAL20V8)
            && tri_flag(#[trigger] b.olmcs@[j], build_mode(b) != Mode::Mode1))
    &&& forall|j: int| 0 <= j < 10 ==> g.s1@[9 - j] == #[trigger] s1_expected(b, j)
    &&& forall|k: int|
        0 <= k < 64 ==> #[trigger] g.pt@[k] == (b.chip == Chip::GAL16V8 || b.chip
            == Chip::GAL20V8)
    &&& g.syn == (match b.chip {
        Chip::GAL16V8 | Chip::GAL20V8 => build_mode(b) != Mode::Mode3,
        _ => false,
    })
    &&& g.ac0 == (match b.chip {
        Chip::GAL16V8 | Chip::GAL20V8 => build_mode(b) != Mode::Mode1,
        _ => false,
    })
}

/// On which blueprints a build succeeds.
pub open spec fn build_ok(b: Blueprint) -> bool {
    match b.chip {
        Chip::GAL16V8 | Chip::GAL20V8 => all_ra10_clean(b) && core_ok(b, build_mode(b)),
        Chip::GAL22V10 => all_ra10_clean(b) && core_ok(b, build_mode(b)) && opt_rows(b.ar).len()
            <= 1 && opt_rows(b.sp).len() <= 1,
        Chip::GAL20RA10 => core_ok(b, build_mode(b)) && aux_all_ok(b),
    }
}

/// The error a failing build returns: the first error in the order the
/// build's steps run.
pub open spec fn build_err_witness(b: Blueprint, e: Error) -> bool {
    match b.chip {
        Chip::GAL16V8 | Chip::GAL20V8 => {
            if !all_ra10_clean(b) {
                ra10_feature_err_witness(b, e)
            } else {
                core_err_witness(b, build_mode(b), e)
            }
        }
        Chip::GAL22V10 => {
            if !all_ra10_clean(b) {
                ra10_feature_err_witness(b, e)
            } else if !core_ok(b, build_mode(b)) {
                core_err_witness(b, build_mode(b), e)
            } else if opt_rows(b.ar).len() > 1 {
                e == (Error { code: ErrorCode::TooManyProductTerms, line: opt_line(b.ar) })
            } else {
                opt_rows(b.sp).len() > 1 && e == (Error {
                    code: ErrorCode::TooManyProductTerms,
                    line: opt_line(b.sp),
                })
            }
        }
        Chip::GAL20RA10 => {
            if !core_ok(b, build_mode(b)) {
                core_err_witness(b, build_mode(b), e)
            } else {
                aux_err_witness(b, e)
            }
        }
    }
}

/// Populate a blank GAL16V8/20V8: check for 20RA10-only features, pack
/// the signature, infer and record the mode, place the core equations,
/// build the tristate-control bits, set the XOR polarity bits and
/// disable all product-term-disable bits.
#[verifier::rlimit(60)]
fn build_galxv8(gal: &mut GAL, blueprint: &Blueprint) -> (res: Result<(), Error>)
    requires
        blueprint.wf(),
        old(gal).chip == blueprint.chip,
        blueprint.chip == Chip::GAL16V8 || blueprint.chip == Chip::GAL20V8,
        is_blank(*old(gal)),
    ensures
        res is Ok <==> build_ok(*blueprint),
        res matches Err(e) ==> build_err_witness(*blueprint, e),
        res is Ok ==> gal_matches(*blueprint, *final(gal)),
{
    let r0 = check_not_gal20ra10(blueprint);
    if let Err(e) = r0 {
        return Err(e);
    }
    set_sig(blueprint, gal);

    let mode = get_mode_v8(&blueprint.olmcs);
    // Sets AC0 and SYN.
    gal.set_mode(mode);

    // Are we implementing combinatorial expressions as tristate?
    // Pure combinatorial is only available in Mode 1.
    let com_is_tri = !matches!(mode, Mode::Mode1);

    proof {
        assert forall|r: int, c: int|
            0 <= r < gal.chip.rows() && 0 <= c < gal.chip.cols() implies #[trigger] gal.fuse(r, c)
            == true by {
            assert(gal.fuses == old(gal).fuses);
            assert(gal.fuse(r, c) == old(gal).fuse(r, c));
        }
        assert(all_fuses_intact(*gal));
        assert(mode == build_mode(*blueprint));
    }
    let r1 = set_core_eqns(gal, blueprint);
    if let Err(e) = r1 {
        return Err(e);
    }
    let ghost g_core = *gal;

    build_tristate_flags(&mut gal.ac1, blueprint, com_is_tri);
    set_xors(gal, blueprint);
    set_pts(gal);

    proof {
        assert forall|r: int, c: int|
            0 <= r < blueprint.chip.rows() && 0 <= c < blueprint.chip.cols() implies #[trigger] gal
            .fuse(r, c) == expected_fuse(*blueprint, r, c) by {
            assert(gal.fuses == g_core.fuses);
            assert(g_core.fuse(r, c) == core_fuse(
                blueprint.olmcs@[row_olmc(blueprint.chip, r)],
                blueprint.chip,
                mode,
                row_k(blueprint.chip, r),
                c,
            ));
        }
        assert(gal_matches(*blueprint, *gal));
    }
    Ok(())
}

/// Populate a blank GAL22V10: check for 20RA10-only features, pack the
/// signature, build the S1 tristate-control bits (combinatorial outputs
/// are always realized as tristate), place the core equations and the
/// global AR/SP rows, and set the XOR polarity bits.
#[verifier::rlimit(60)]
fn build_gal22v10(gal: &mut GAL, blueprint: &Blueprint) -> (res: Result<(), Error>)
    requires
        blueprint.wf(),
        old(gal).chip == blueprint.chip,
        blueprint.chip == Chip::GAL22V10,
        is_blank(*old(gal)),
    ensures
        res is Ok <==> build_ok(*blueprint),
        res matches Err(e) ==> build_err_witness(*blueprint, e),
        res is Ok ==> gal_matches(*blueprint, *final(gal)),
{
    let r0 = check_not_gal20ra10(blueprint);
    if let Err(e) = r0 {
        return Err(e);
    }
    set_sig(blueprint, gal);

    build_tristate_flags(&mut gal.s1, blueprint, true);

    proof {
        assert forall|r: int, c: int|
            0 <= r < gal.chip.rows() && 0 <= c < gal.chip.cols() implies #[trigger] gal.fuse(r, c)
            == true by {
            assert(gal.fuses == old(gal).fuses);
            assert(gal.fuse(r, c) == old(gal).fuse(r, c));
        }
        assert(all_fuses_intact(*gal));
    }
    let r1 = set_core_eqns(gal, blueprint);
    if let Err(e) = r1 {
        return Err(e);
    }
    let ghost g_core = *gal;

    let r2 = set_arsp_eqns(gal, blueprint);
    if let Err(e) = r2 {
        return Err(e);
    }
    let ghost g_arsp = *gal;

    set_xors(gal, blueprint);

    proof {
        assert forall|r: int, c: int|
            0 <= r < blueprint.chip.rows() && 0 <= c < blueprint.chip.cols() implies #[trigger] gal
            .fuse(r, c) == expected_fuse(*blueprint, r, c) by {
            assert(gal.fuses == g_arsp.fuses);
            assert(g_core.fuse(r, c) == (if covered(blueprint.chip, r) {
                core_fuse(
                    blueprint.olmcs@[row_olmc(blueprint.chip, r)],
                    blueprint.chip,
                    build_mode(*blueprint),
                    row_k(blueprint.chip, r),
                    c,
                )
            } else {
                true
            }));
            if r == 0 {
                assert(g_arsp.fuse(r, c) == fuse_after(g_core.fuse(r, c), opt_rows(blueprint.ar), 0, c));
            } else if r == 131 {
                assert(g_arsp.fuse(r, c) == fuse_after(g_core.fuse(r, c), opt_rows(blueprint.sp), 0, c));
            } else {
                assert(g_arsp.fuse(r, c) == g_core.fuse(r, c));
            }
        }
        assert(gal_matches(*blueprint, *gal));
    }
    Ok(())
}

/// Populate a blank GAL20RA10: pack the signature, place the core
/// equations, place the per-OLMC clock and async reset/preset rows, and
/// set the XOR polarity bits.
#[verifier::rlimit(60)]
fn build_gal20ra10(gal: &mut GAL, blueprint: &Blueprint) -> (res: Result<(), Error>)
    requires
        blueprint.wf(),
        old(gal).chip == blueprint.chip,
        blueprint.chip == Chip::GAL20RA10,
        is_blank(*old(gal)),
    ensures
        res is Ok <==> build_ok(*blueprint),
        res matches Err(e) ==> build_err_witness(*blueprint, e),
        res is Ok ==> gal_matches(*blueprint, *final(gal)),
{
    set_sig(blueprint, gal);

    proof {
        assert forall|r: int, c: int|
            0 <= r < gal.chip.rows() && 0 <= c < gal.chip.cols() implies #[trigger] gal.fuse(r, c)
            == true by {
            assert(gal.fuses == old(gal).fuses);
            assert(gal.fuse(r, c) == old(gal).fuse(r, c));
        }
        assert(all_fuses_intact(*gal));
    }
    let r1 = set_core_eqns(gal, blueprint);
    if let Err(e) = r1 {
        return Err(e);
    }
    let ghost g_core = *gal;

    let r2 = set_aux_eqns(gal, blueprint);
    if let Err(e) = r2 {
        return Err(e);
    }
    let ghost g_aux = *gal;

    set_xors(gal, blueprint);

    proof {
        assert forall|r: int, c: int|
            0 <= r < blueprint.chip.rows() && 0 <= c < blueprint.chip.cols() implies #[trigger] gal
            .fuse(r, c) == expected_fuse(*blueprint, r, c) by {
            let chip = blueprint.chip;
            let o = blueprint.olmcs@[r / 8];
            vstd::arithmetic::div_mod::lemma_fundamental_div_mod_converse_div(r, 8, r / 8, r % 8);
            assert(row_olmc(chip, r) == r / 8);
            assert(gal.fuses == g_aux.fuses);
            assert(g_core.fuse(r, c) == core_fuse(o, chip, build_mode(*blueprint), r % 8, c));
            assert(g_aux.fuse(r, c) == ra10_aux_fuse(o, g_core.fuse(r, c), r % 8, c));
            if has_output(o) && 1 <= r % 8 < 4 {
                assert(core_fuse(o, chip, build_mode(*blueprint), r % 8, c) == true);
            }
        }
        assert(gal_matches(*blueprint, *gal));
    }
    Ok(())
}

/// Build a GAL fuse map from a blueprint, dispatching on the chip.
///
/// On success the returned GAL is determined bit for bit by the
/// blueprint: `gal_matches` pins every fuse and configuration bit. On
/// failure the error is the first one the build's steps encounter.
pub fn build(blueprint: &Blueprint) -> (res: Result<GAL, Error>)
    requires
        blueprint.wf(),
    ensures
        res is Ok <==> build_ok(*blueprint),
        res matches Ok(g) ==> gal_matches(*blueprint, g),
        res matches Err(e) ==> build_err_witness(*blueprint, e),
{
    let mut gal = GAL::new(blueprint.chip);

    let res = match gal.chip {
        Chip::GAL16V8 | Chip::GAL20V8 => build_galxv8(&mut gal, blueprint),
        Chip::GAL22V10 => build_gal22v10(&mut gal, blueprint),
        Chip::GAL20RA10 => build_gal20ra10(&mut gal, blueprint),
    };
    match res {
        Ok(()) => Ok(gal),
        Err(e) => Err(e),
    }
}

} // verus!
