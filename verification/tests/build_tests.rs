use galette::blueprint::Active;
use galette::blueprint::Blueprint;
use galette::blueprint::OLMC;
use galette::blueprint::PinMode;
use galette::chips::Chip;
use galette::errors::Error;
use galette::errors::ErrorCode;
use galette::gal::Bounds;
use galette::gal::GAL;
use galette::gal::Mode;
use galette::gal::Term;
use galette::gal::false_term;
use galette::gal_builder::build;
use galette::gal_builder::get_mode_v8;

fn olmc_plain() -> OLMC {
    OLMC {
        active: Active::High,
        output: None,
        tri_con: None,
        clock: None,
        arst: None,
        aprst: None,
        feedback: false,
    }
}

fn term(line: u32, rows: Vec<Vec<usize>>) -> Term {
    Term { line_num: line, rows }
}

fn bp(chip: Chip) -> Blueprint {
    let n = match chip {
        Chip::GAL16V8 | Chip::GAL20V8 => 8,
        _ => 10,
    };
    Blueprint { chip, sig: vec![], olmcs: vec![olmc_plain(); n], ar: None, sp: None }
}

fn assert_row(gal: &GAL, r: usize, programmed_cols: &[usize]) {
    let cols = gal.fuses[r].len();
    for c in 0..cols {
        let expect_intact = !programmed_cols.contains(&c);
        assert_eq!(gal.fuses[r][c], expect_intact, "row {} col {}", r, c);
    }
}

fn assert_row_all(gal: &GAL, r: usize, value: bool) {
    for c in 0..gal.fuses[r].len() {
        assert_eq!(gal.fuses[r][c], value, "row {} col {}", r, c);
    }
}

// Every chip's fuse matrix and bit planes have exactly the documented sizes.
#[test]
fn test_fuse_matrix_sizes() {
    let cases = [
        (Chip::GAL16V8, 64, 32, 8),
        (Chip::GAL20V8, 64, 40, 8),
        (Chip::GAL22V10, 132, 44, 10),
        (Chip::GAL20RA10, 80, 40, 10),
    ];
    for (chip, rows, cols, olmcs) in cases {
        let gal = build(&bp(chip)).unwrap();
        assert_eq!(gal.fuses.len(), rows);
        for r in 0..rows {
            assert_eq!(gal.fuses[r].len(), cols);
        }
        assert_eq!(gal.xor.len(), olmcs);
        assert_eq!(gal.sig.len(), 64);
        assert_eq!(gal.ac1.len(), 8);
        assert_eq!(gal.pt.len(), 64);
        assert_eq!(gal.s1.len(), 10);
    }
}

// V8, all combinatorial, active high, no feedback: Mode 1, all XOR bits
// set, all AC1 bits clear, PT all ones.
#[test]
fn test_v8_all_combinatorial_mode1() {
    let mut b = bp(Chip::GAL16V8);
    for i in 0..8 {
        b.olmcs[i].output = Some((PinMode::Combinatorial, term(10 + i as u32, vec![vec![0]])));
    }
    assert_eq!(get_mode_v8(&b.olmcs), Mode::Mode1);
    let gal = build(&b).unwrap();
    // Mode 1 selector bits: SYN set, AC0 clear.
    assert!(gal.syn);
    assert!(!gal.ac0);
    for k in 0..8 {
        assert!(gal.xor[k], "xor[{}]", k);
        assert!(!gal.ac1[k], "ac1[{}]", k);
    }
    for k in 0..64 {
        assert!(gal.pt[k]);
    }
    // Mode 1: no row reserved for a tristate enable; the single product
    // row sits in the first row of each region, the rest are disabled.
    for i in 0..8 {
        assert_row(&gal, 8 * i, &[0]);
        for k in 1..8 {
            assert_row_all(&gal, 8 * i + k, false);
        }
    }
}

// V8 with one registered output on OLMC 2: Mode 3, xor[5] set for the
// active-high output, ac1[5] clear, and the registered output's main
// term placed with no reserved row (all eight rows usable).
#[test]
fn test_v8_registered_olmc2_mode3() {
    let mut b = bp(Chip::GAL16V8);
    let rows: Vec<Vec<usize>> = (0..8).map(|_| vec![0]).collect();
    b.olmcs[2].output = Some((PinMode::Registered, term(30, rows)));
    assert_eq!(get_mode_v8(&b.olmcs), Mode::Mode3);
    let gal = build(&b).unwrap();
    // Mode 3 selector bits: SYN clear, AC0 set.
    assert!(!gal.syn);
    assert!(gal.ac0);
    assert!(gal.xor[5]);
    assert!(!gal.ac1[5]);
    // row_offset = 0 for a registered output: all eight rows hold the
    // term, so even the first region row carries the programmed column.
    for k in 0..8 {
        assert_row(&gal, 16 + k, &[0]);
    }
}

// V8 with OLMC 3 as bare input (feedback, no output): Mode 2 forced by
// the Mode-1 incompatibility, and ac1[4] set for the bare input.
#[test]
fn test_v8_bare_input_forces_mode2() {
    let mut b = bp(Chip::GAL16V8);
    b.olmcs[3].feedback = true;
    assert_eq!(get_mode_v8(&b.olmcs), Mode::Mode2);
    let gal = build(&b).unwrap();
    // Mode 2 selector bits: SYN set, AC0 set.
    assert!(gal.syn);
    assert!(gal.ac0);
    assert!(gal.ac1[4]);
    for k in 0..8 {
        if k != 4 {
            assert!(!gal.ac1[k], "ac1[{}]", k);
        }
    }
}

// Mode inference priority over all three levels.
#[test]
fn test_v8_mode_priority() {
    // Registered beats tristate.
    let mut b = bp(Chip::GAL16V8);
    b.olmcs[0].output = Some((PinMode::Tristate, term(1, vec![vec![0]])));
    b.olmcs[1].output = Some((PinMode::Registered, term(2, vec![vec![0]])));
    assert_eq!(get_mode_v8(&b.olmcs), Mode::Mode3);
    // Tristate alone gives Mode 2.
    let mut b = bp(Chip::GAL16V8);
    b.olmcs[7].output = Some((PinMode::Tristate, term(1, vec![vec![0]])));
    assert_eq!(get_mode_v8(&b.olmcs), Mode::Mode2);
    // Combinatorial feedback blocks Mode 1.
    let mut b = bp(Chip::GAL16V8);
    b.olmcs[6].output = Some((PinMode::Combinatorial, term(1, vec![vec![0]])));
    b.olmcs[6].feedback = true;
    assert_eq!(get_mode_v8(&b.olmcs), Mode::Mode2);
    // A bare input on OLMC 2 is fine in Mode 1 (only 3 and 4 block it).
    let mut b = bp(Chip::GAL16V8);
    b.olmcs[2].feedback = true;
    assert_eq!(get_mode_v8(&b.olmcs), Mode::Mode1);
    // A bare input on OLMC 4 blocks Mode 1.
    let mut b = bp(Chip::GAL16V8);
    b.olmcs[4].feedback = true;
    assert_eq!(get_mode_v8(&b.olmcs), Mode::Mode2);
    // Nothing declared at all: Mode 1.
    let b = bp(Chip::GAL16V8);
    assert_eq!(get_mode_v8(&b.olmcs), Mode::Mode1);
}

// XOR bits follow the reversed OLMC indexing and the polarity.
#[test]
fn test_xor_reversed_indexing() {
    let mut b = bp(Chip::GAL20RA10);
    b.olmcs[0].output = Some((PinMode::Combinatorial, term(1, vec![vec![0]])));
    b.olmcs[0].active = Active::High;
    b.olmcs[1].output = Some((PinMode::Combinatorial, term(2, vec![vec![0]])));
    b.olmcs[1].active = Active::Low;
    b.olmcs[2].active = Active::High;  // no output: no XOR bit
    let gal = build(&b).unwrap();
    assert!(gal.xor[9]);
    assert!(!gal.xor[8]);
    assert!(!gal.xor[7]);
}

// 22V10 with AR = constant GND (a single empty product row), SP absent:
// row 0 holds the GND term (all fuses intact), row 131 is disabled.
#[test]
fn test_v10_ar_gnd_sp_absent() {
    let mut b = bp(Chip::GAL22V10);
    b.ar = Some(term(5, vec![vec![]]));
    let gal = build(&b).unwrap();
    assert_row_all(&gal, 0, true);
    assert_row_all(&gal, 131, false);
}

// 22V10: an OLMC with neither a combinatorial nor a tristate output and
// no feedback leaves its S1 bit clear; tristate and bare-input OLMCs
// set theirs.
#[test]
fn test_v10_s1_bits() {
    let mut b = bp(Chip::GAL22V10);
    b.olmcs[0].output = Some((PinMode::Tristate, term(1, vec![vec![0]])));
    b.olmcs[1].feedback = true;
    // OLMC 2 is fully unused; OLMC 3 is registered.
    b.olmcs[3].output = Some((PinMode::Registered, term(2, vec![vec![1]])));
    let gal = build(&b).unwrap();
    assert!(gal.s1[9]);
    assert!(gal.s1[8]);
    assert!(!gal.s1[7]);
    assert!(!gal.s1[6]);
}

// Signature bytes pack MSB-first into the signature plane.
#[test]
fn test_signature_packing() {
    let mut b = bp(Chip::GAL16V8);
    b.sig = vec![0xA5, 0x01];
    let gal = build(&b).unwrap();
    let byte0 = [true, false, true, false, false, true, false, true];
    let byte1 = [false, false, false, false, false, false, false, true];
    for j in 0..8 {
        assert_eq!(gal.sig[j], byte0[j], "byte 0 bit {}", j);
        assert_eq!(gal.sig[8 + j], byte1[j], "byte 1 bit {}", j);
    }
    for n in 16..64 {
        assert!(!gal.sig[n]);
    }
}

// Building the same blueprint twice gives bit-for-bit the same GAL.
#[test]
fn test_build_idempotent() {
    let mut b = bp(Chip::GAL22V10);
    b.sig = vec![0x42];
    b.olmcs[4].output = Some((PinMode::Tristate, term(9, vec![vec![3], vec![7]])));
    b.olmcs[4].tri_con = Some(term(10, vec![vec![11]]));
    b.ar = Some(term(11, vec![vec![2]]));
    let g1 = build(&b).unwrap();
    let g2 = build(&b).unwrap();
    assert_eq!(g1, g2);
}

// 20RA10 registered output without a clock fails with NoCLK at the
// registered term's line.
#[test]
fn test_ra10_registered_no_clock() {
    let mut b = bp(Chip::GAL20RA10);
    b.olmcs[4].output = Some((PinMode::Registered, term(77, vec![vec![0]])));
    let res = build(&b);
    assert_eq!(res.unwrap_err(), Error { code: ErrorCode::NoCLK, line: 77 });
}

// 20RA10 registered output with a clock: the clock, reset and preset
// rows of the region are filled, the main term starts at row offset 4.
#[test]
fn test_ra10_registered_with_clock() {
    let mut b = bp(Chip::GAL20RA10);
    b.olmcs[0].output = Some((PinMode::Registered, term(1, vec![vec![5]])));
    b.olmcs[0].clock = Some(term(2, vec![vec![6]]));
    let gal = build(&b).unwrap();
    // Row 0: tristate enable absent, left intact.
    assert_row_all(&gal, 0, true);
    // Row 1: the clock term.
    assert_row(&gal, 1, &[6]);
    // Rows 2 and 3: absent reset/preset are disabled.
    assert_row_all(&gal, 2, false);
    assert_row_all(&gal, 3, false);
    // Row 4: the main term; remaining rows disabled.
    assert_row(&gal, 4, &[5]);
    for k in 5..8 {
        assert_row_all(&gal, k, false);
    }
}

// An oversized main term fails with TooManyProductTerms and no GAL.
#[test]
fn test_oversized_term() {
    let mut b = bp(Chip::GAL16V8);
    let rows: Vec<Vec<usize>> = (0..9).map(|_| vec![0]).collect();
    b.olmcs[0].output = Some((PinMode::Combinatorial, term(42, rows)));
    let res = build(&b);
    assert_eq!(res.unwrap_err(), Error { code: ErrorCode::TooManyProductTerms, line: 42 });
}

// A tristate-enable term of more than one product row does not fit its
// single reserved row.
#[test]
fn test_oversized_tristate_enable() {
    let mut b = bp(Chip::GAL22V10);
    b.olmcs[1].output = Some((PinMode::Tristate, term(8, vec![vec![0]])));
    b.olmcs[1].tri_con = Some(term(9, vec![vec![0], vec![1]]));
    let res = build(&b);
    assert_eq!(res.unwrap_err(), Error { code: ErrorCode::TooManyProductTerms, line: 9 });
}

// The 22V10's SP row admits a single product row; a longer term fails,
// and an oversized AR is reported before an oversized SP.
#[test]
fn test_v10_arsp_overflow() {
    let mut b = bp(Chip::GAL22V10);
    b.sp = Some(term(21, vec![vec![0], vec![1]]));
    let res = build(&b);
    assert_eq!(res.unwrap_err(), Error { code: ErrorCode::TooManyProductTerms, line: 21 });

    b.ar = Some(term(20, vec![vec![0], vec![1]]));
    let res = build(&b);
    assert_eq!(res.unwrap_err(), Error { code: ErrorCode::TooManyProductTerms, line: 20 });
}

// 20RA10-only features are rejected on the other chips, clock first.
#[test]
fn test_disallowed_ra10_features() {
    let mut b = bp(Chip::GAL16V8);
    b.olmcs[2].clock = Some(term(3, vec![vec![0]]));
    assert_eq!(build(&b).unwrap_err(), Error { code: ErrorCode::DisallowedCLK, line: 3 });

    let mut b = bp(Chip::GAL20V8);
    b.olmcs[5].arst = Some(term(4, vec![vec![0]]));
    assert_eq!(build(&b).unwrap_err(), Error { code: ErrorCode::DisallowedARST, line: 4 });

    let mut b = bp(Chip::GAL22V10);
    b.olmcs[9].aprst = Some(term(6, vec![vec![0]]));
    assert_eq!(build(&b).unwrap_err(), Error { code: ErrorCode::DisallowedAPRST, line: 6 });
}

// The term placer: a placed row programs exactly the listed columns,
// leftover writable rows are disabled, rows outside the range are kept,
// and an overflowing term leaves the fuse map unchanged.
#[test]
fn test_add_term_placement() {
    let mut gal = GAL::new(Chip::GAL16V8);
    let bounds = Bounds { start_row: 0, max_row: 8, row_offset: 0 };
    let t = term(1, vec![vec![0, 3], vec![2]]);
    gal.add_term(&t, &bounds).unwrap();
    assert_row(&gal, 0, &[0, 3]);
    assert_row(&gal, 1, &[2]);
    for k in 2..8 {
        assert_row_all(&gal, k, false);
    }
    assert_row_all(&gal, 8, true);

    let mut gal2 = GAL::new(Chip::GAL16V8);
    let too_big = term(7, (0..9).map(|_| vec![0]).collect());
    let res = gal2.add_term(&too_big, &bounds);
    assert_eq!(res.unwrap_err(), Error { code: ErrorCode::TooManyProductTerms, line: 7 });
    for r in 0..64 {
        assert_row_all(&gal2, r, true);
    }
}

// The false term occupies one row with no fuses programmed.
#[test]
fn test_false_term() {
    let t = false_term(0);
    assert_eq!(t.line_num, 0);
    assert_eq!(t.rows.len(), 1);
    assert!(t.rows[0].is_empty());
}

// The 22V10's variable region layout: each OLMC's first region row is
// the reserved enable row, and a driven OLMC's main term lands just
// after it.
#[test]
fn test_v10_region_layout() {
    let mut b = bp(Chip::GAL22V10);
    // OLMC 4's region starts at absolute row 49 and spans 17 rows.
    b.olmcs[4].output = Some((PinMode::Tristate, term(1, vec![vec![9]])));
    b.olmcs[4].tri_con = Some(term(2, vec![vec![4]]));
    let gal = build(&b).unwrap();
    assert_row(&gal, 49, &[4]);
    assert_row(&gal, 50, &[9]);
    for k in 51..66 {
        assert_row_all(&gal, k, false);
    }
}
