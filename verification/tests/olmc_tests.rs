use galette::chips::Chip;
use galette::errors::ErrorCode;
use galette::errors::at_line;
use galette::gal::GAL;
use galette::gal::Mode;
use galette::gal::Term;
use galette::gal_builder::Pin;
use galette::gal_builder::SUFFIX_NON;
use galette::gal_builder::SUFFIX_R;
use galette::gal_builder::SUFFIX_T;
use galette::olmc::Active;
use galette::olmc::OLMC;
use galette::olmc::PinType;
use galette::olmc::Tri;
use galette::olmc::analyse_mode;
use galette::olmc::analyse_mode_v8;
use galette::olmc::get_mode_v8;

fn term(line: u32) -> Term {
    Term { line_num: line, rows: vec![vec![0]] }
}

fn cell() -> OLMC {
    OLMC {
        active: Active::LOW,
        pin_type: PinType::UNDRIVEN,
        output: None,
        tri_con: Tri::Absent,
        clock: None,
        arst: None,
        aprst: None,
        feedback: false,
    }
}

fn pin(neg: i32) -> Pin {
    Pin { neg, pin: 1 }
}

#[test]
fn test_set_base() {
    let jedec = GAL::new(Chip::GAL16V8);
    let mut o = cell();
    o.set_base(&jedec, &pin(0), false, term(3), SUFFIX_R).unwrap();
    assert_eq!(o.pin_type, PinType::REGOUT);
    assert_eq!(o.active, Active::HIGH);
    assert!(o.output.is_some());
    // A second equation for the same pin errors out.
    assert_eq!(o.set_base(&jedec, &pin(0), false, term(4), SUFFIX_T), Err(16));

    // A negated pin gives an active-low output; a bare suffix a
    // maybe-tristated combinatorial output.
    let mut o2 = cell();
    o2.set_base(&jedec, &pin(1), false, term(5), SUFFIX_NON).unwrap();
    assert_eq!(o2.pin_type, PinType::COMTRIOUT);
    assert_eq!(o2.active, Active::LOW);

    // On the 22V10 a repeated AR/SP equation has its own error code.
    let jedec10 = GAL::new(Chip::GAL22V10);
    let mut o3 = cell();
    o3.set_base(&jedec10, &pin(0), true, term(6), SUFFIX_NON).unwrap();
    assert_eq!(o3.set_base(&jedec10, &pin(0), true, term(7), SUFFIX_NON), Err(40));
}

#[test]
fn test_set_enable() {
    let jedec = GAL::new(Chip::GAL16V8);
    // Negated enable pin.
    let mut o = cell();
    assert_eq!(o.set_enable(&jedec, &pin(1), term(1)), Err(19));
    // Undriven pin.
    let mut o = cell();
    assert_eq!(o.set_enable(&jedec, &pin(0), term(1)), Err(17));
    assert!(matches!(o.tri_con, Tri::Enable(_)));
    // Repeated enable.
    assert_eq!(o.set_enable(&jedec, &pin(0), term(2)), Err(22));
    // Registered output on a V8 chip.
    let mut o = cell();
    o.set_base(&jedec, &pin(0), false, term(1), SUFFIX_R).unwrap();
    assert_eq!(o.set_enable(&jedec, &pin(0), term(2)), Err(23));
    // Plain combinatorial output.
    let mut o = cell();
    o.set_base(&jedec, &pin(0), false, term(1), SUFFIX_NON).unwrap();
    assert_eq!(o.set_enable(&jedec, &pin(0), term(2)), Err(24));
    // Tristate output accepts the enable.
    let mut o = cell();
    o.set_base(&jedec, &pin(0), false, term(1), SUFFIX_T).unwrap();
    o.set_enable(&jedec, &pin(0), term(2)).unwrap();
    // Registered output on the 20RA10 accepts it too.
    let ra = GAL::new(Chip::GAL20RA10);
    let mut o = cell();
    o.set_base(&ra, &pin(0), false, term(1), SUFFIX_R).unwrap();
    o.set_enable(&ra, &pin(0), term(2)).unwrap();
}

#[test]
fn test_set_clock() {
    let jedec = GAL::new(Chip::GAL20RA10);
    let mut o = cell();
    assert_eq!(o.set_clock(&pin(1), term(1)), Err(19));
    assert_eq!(o.set_clock(&pin(0), term(1)), Err(42));
    let mut o = cell();
    o.set_base(&jedec, &pin(0), false, term(1), SUFFIX_R).unwrap();
    o.set_clock(&pin(0), term(2)).unwrap();
    assert!(o.clock.is_some());
    assert_eq!(o.set_clock(&pin(0), term(3)), Err(45));
    // A clock on a non-registered output is recorded but refused.
    let mut o = cell();
    o.set_base(&jedec, &pin(0), false, term(1), SUFFIX_T).unwrap();
    assert_eq!(o.set_clock(&pin(0), term(2)), Err(48));
    assert!(o.clock.is_some());
}

#[test]
fn test_set_arst_aprst() {
    let jedec = GAL::new(Chip::GAL20RA10);
    let mut o = cell();
    assert_eq!(o.set_arst(&pin(0), term(1)), Err(43));
    assert_eq!(o.set_aprst(&pin(0), term(1)), Err(44));
    let mut o = cell();
    o.set_base(&jedec, &pin(0), false, term(1), SUFFIX_R).unwrap();
    o.set_arst(&pin(0), term(2)).unwrap();
    o.set_aprst(&pin(0), term(3)).unwrap();
    assert_eq!(o.set_arst(&pin(0), term(4)), Err(46));
    assert_eq!(o.set_aprst(&pin(0), term(5)), Err(47));
}

#[test]
fn test_get_mode_v8_roles() {
    let mut jedec = GAL::new(Chip::GAL16V8);
    // A registered pin forces Mode 3.
    let mut olmcs = vec![cell(); 8];
    olmcs[1].pin_type = PinType::REGOUT;
    olmcs[2].pin_type = PinType::TRIOUT;
    assert_eq!(get_mode_v8(&mut jedec, &olmcs), Mode::Mode3);
    // A tristate pin alone forces Mode 2.
    let mut olmcs = vec![cell(); 8];
    olmcs[2].pin_type = PinType::TRIOUT;
    assert_eq!(get_mode_v8(&mut jedec, &olmcs), Mode::Mode2);
    // On the 16V8, pins 15 and 16 (OLMCs 3 and 4) cannot be bare
    // inputs in Mode 1.
    let mut olmcs = vec![cell(); 8];
    olmcs[3].feedback = true;
    assert_eq!(get_mode_v8(&mut jedec, &olmcs), Mode::Mode2);
    // Elsewhere a bare input is fine.
    let mut olmcs = vec![cell(); 8];
    olmcs[0].feedback = true;
    assert_eq!(get_mode_v8(&mut jedec, &olmcs), Mode::Mode1);
    // The same OLMC indexes are blocked on the 20V8 (pins 18 and 19).
    let mut jedec20 = GAL::new(Chip::GAL20V8);
    let mut olmcs = vec![cell(); 8];
    olmcs[4].feedback = true;
    assert_eq!(get_mode_v8(&mut jedec20, &olmcs), Mode::Mode2);
    // Combinatorial feedback blocks Mode 1.
    let mut olmcs = vec![cell(); 8];
    olmcs[6].pin_type = PinType::COMTRIOUT;
    olmcs[6].feedback = true;
    assert_eq!(get_mode_v8(&mut jedec, &olmcs), Mode::Mode2);
}

#[test]
fn test_analyse_mode_v8_sets_selectors() {
    let mut jedec = GAL::new(Chip::GAL16V8);
    let mut olmcs = vec![cell(); 8];
    olmcs[0].pin_type = PinType::REGOUT;
    let mode = analyse_mode_v8(&mut jedec, &olmcs);
    assert_eq!(mode, Mode::Mode3);
    assert!(!jedec.syn);
    assert!(jedec.ac0);
}

#[test]
fn test_analyse_mode_v8_resolution() {
    // In Mode 1, a maybe-tristated combinatorial pin becomes plain
    // combinatorial.
    let mut jedec = GAL::new(Chip::GAL16V8);
    let mut olmcs = vec![cell(); 8];
    olmcs[0].pin_type = PinType::COMTRIOUT;
    olmcs[0].output = Some(term(1));
    olmcs[0].active = Active::HIGH;
    let r = analyse_mode(&mut jedec, &mut olmcs);
    assert_eq!(r, Some(Mode::Mode1));
    assert_eq!(olmcs[0].pin_type, PinType::COMOUT);
    assert!(matches!(olmcs[0].tri_con, Tri::Absent));
    // PT bits are all set; the XOR bit of the active-high output too.
    for n in 0..64 {
        assert!(jedec.pt[n]);
    }
    assert!(jedec.xor[7]);
    assert!(!jedec.ac1[7]);

    // In a forced Mode 2, the same pin becomes tristate with a VCC
    // enable, and its AC1 bit is set.
    let mut jedec = GAL::new(Chip::GAL16V8);
    let mut olmcs = vec![cell(); 8];
    olmcs[0].pin_type = PinType::COMTRIOUT;
    olmcs[0].output = Some(term(1));
    olmcs[0].active = Active::HIGH;
    olmcs[5].pin_type = PinType::TRIOUT;
    let r = analyse_mode(&mut jedec, &mut olmcs);
    assert_eq!(r, Some(Mode::Mode2));
    assert_eq!(olmcs[0].pin_type, PinType::TRIOUT);
    assert!(matches!(olmcs[0].tri_con, Tri::VCC));
    assert!(jedec.ac1[7]);
    assert!(jedec.ac1[2]);
}

#[test]
fn test_analyse_mode_v10() {
    let mut jedec = GAL::new(Chip::GAL22V10);
    let mut olmcs = vec![cell(); 10];
    olmcs[0].pin_type = PinType::COMTRIOUT;
    olmcs[0].output = Some(term(1));
    olmcs[0].active = Active::HIGH;
    olmcs[1].feedback = true;
    let r = analyse_mode(&mut jedec, &mut olmcs);
    assert_eq!(r, None);
    // The 22V10 resolves COMTRIOUT to TRIOUT without a VCC enable.
    assert_eq!(olmcs[0].pin_type, PinType::TRIOUT);
    assert!(matches!(olmcs[0].tri_con, Tri::Absent));
    assert!(jedec.xor[9]);
    assert!(jedec.s1[9]);
    assert!(jedec.s1[8]);
    assert!(!jedec.s1[7]);
    // The mode selector bits stay clear off the V8 chips.
    assert!(!jedec.syn);
    assert!(!jedec.ac0);
}

#[test]
fn test_analyse_mode_ra10() {
    let mut jedec = GAL::new(Chip::GAL20RA10);
    let mut olmcs = vec![cell(); 10];
    olmcs[3].pin_type = PinType::COMTRIOUT;
    olmcs[3].output = Some(term(1));
    olmcs[3].active = Active::HIGH;
    let r = analyse_mode(&mut jedec, &mut olmcs);
    assert_eq!(r, None);
    assert_eq!(olmcs[3].pin_type, PinType::TRIOUT);
    assert!(jedec.xor[6]);
    // No S1 plane is touched on the 20RA10.
    for k in 0..10 {
        assert!(!jedec.s1[k]);
    }
}

#[test]
fn test_at_line() {
    assert_eq!(at_line::<u8>(9, Ok(3)), Ok(3));
    let e = at_line::<u8>(9, Err(ErrorCode::NoCLK)).unwrap_err();
    assert_eq!(e.code, ErrorCode::NoCLK);
    assert_eq!(e.line, 9);
}
