//! OLMC assembly and analysis as the equation collector sees it:
//! attaching equations, enables, clocks and resets to macrocells, and
//! resolving each cell's role before fuse-map synthesis.

use vstd::prelude::*;

verus! {

use vstd::pervasive::VecAdditionalExecFns;
use crate::chips::Chip;
use crate::gal::GAL;
use crate::gal::Mode;
use crate::gal::Term;
use crate::gal::mode_from_bits;
use crate::gal_builder::Pin;
use crate::gal_builder::SUFFIX_NON;
use crate::gal_builder::SUFFIX_R;
use crate::gal_builder::SUFFIX_T;

/// A tristate-enable declaration: absent, a product term, or constant
/// VCC (always enabled).
#[derive(Clone, Debug, PartialEq)]
pub enum Tri {
    Absent,
    Enable(Term),
    VCC,
}

/// The role of a pin, as declared and then resolved by the analysis.
#[derive(Clone, Copy, Debug, PartialEq, Eq, Structural)]
pub enum PinType {
    UNDRIVEN,
    COMOUT,
    TRIOUT,
    REGOUT,
    COMTRIOUT,
}

/// Output polarity of a declared equation.
#[derive(Clone, Copy, Debug, PartialEq, Eq, Structural)]
pub enum Active {
    LOW,
    HIGH,
}

/// One macrocell under assembly: the declarations collected for a pin.
#[derive(Clone, Debug, PartialEq)]
pub struct OLMC {
    pub active: Active,
    pub pin_type: PinType,
    pub output: Option<Term>,
    pub tri_con: Tri,
    pub clock: Option<Term>,
    pub arst: Option<Term>,
    pub aprst: Option<Term>,
    pub feedback: bool,
}

impl OLMC {
    /// Attach the main equation of a pin: its term, polarity and role
    /// from the equation's suffix. A second equation for the same pin
    /// is an error (40 for the 22V10's AR/SP pseudo-pins, 16
    /// otherwise).
    pub fn set_base(
        &mut self,
        jedec: &GAL,
        act_pin: &Pin,
        is_arsp: bool,
        term: Term,
        suffix: i32,
    ) -> (r: Result<(), i32>)
        requires
            suffix == SUFFIX_T || suffix == SUFFIX_R || suffix == SUFFIX_NON,
        ensures
            old(self).output is Some ==> {
                &&& *final(self) == *old(self)
                &&& r is Err
                &&& r->Err_0 == (if jedec.chip == Chip::GAL22V10 && is_arsp {
                    40int
                } else {
                    16int
                })
            },
            old(self).output is None ==> r is Ok && *final(self) == (OLMC {
                output: Some(term),
                active: (if act_pin.neg != 0 {
                    Active::LOW
                } else {
                    Active::HIGH
                }),
                pin_type: (if suffix == SUFFIX_T {
                    PinType::TRIOUT
                } else if suffix == SUFFIX_R {
                    PinType::REGOUT
                } else {
                    PinType::COMTRIOUT
                }),
                ..*old(self)
            }),
    {
        if self.output.is_some() {
            // Previously defined, so error out.
            if matches!(jedec.chip, Chip::GAL22V10) && is_arsp {
                return Err(40);
            } else {
                return Err(16);
            }
        }

        self.output = Some(term);

        self.active = if act_pin.neg != 0 {
            Active::LOW
        } else {
            Active::HIGH
        };

        self.pin_type = if suffix == SUFFIX_T {
            PinType::TRIOUT
        } else if suffix == SUFFIX_R {
            PinType::REGOUT
        } else {
            PinType::COMTRIOUT
        };

        Ok(())
    }

    /// Attach a tristate-enable term. The enable may not be negated
    /// (19) or repeated (22); once recorded, an undriven pin (17), a
    /// registered output on the V8 chips (23) or a plain combinatorial
    /// output (24) still refuse it.
    pub fn set_enable(&mut self, jedec: &GAL, act_pin: &Pin, term: Term) -> (r: Result<(), i32>)
        ensures
            ({
                let o = *old(self);
                if act_pin.neg != 0 {
                    &&& *final(self) == o
                    &&& r is Err
                    &&& r->Err_0 == 19
                } else if !(o.tri_con is Absent) {
                    &&& *final(self) == o
                    &&& r is Err
                    &&& r->Err_0 == 22
                } else {
                    &&& *final(self) == (OLMC { tri_con: Tri::Enable(term), ..o })
                    &&& (if o.pin_type == PinType::UNDRIVEN {
                        r is Err && r->Err_0 == 17
                    } else if o.pin_type == PinType::REGOUT && (jedec.chip == Chip::GAL16V8
                        || jedec.chip == Chip::GAL20V8) {
                        r is Err && r->Err_0 == 23
                    } else if o.pin_type == PinType::COMTRIOUT {
                        r is Err && r->Err_0 == 24
                    } else {
                        r is Ok
                    })
                }
            }),
    {
        if act_pin.neg != 0 {
            return Err(19);
        }

        if !matches!(self.tri_con, Tri::Absent) {
            return Err(22);
        }

        self.tri_con = Tri::Enable(term);

        if matches!(self.pin_type, PinType::UNDRIVEN) {
            return Err(17);
        }

        if matches!(self.pin_type, PinType::REGOUT) && (matches!(jedec.chip, Chip::GAL16V8)
            || matches!(jedec.chip, Chip::GAL20V8)) {
            return Err(23);
        }

        if matches!(self.pin_type, PinType::COMTRIOUT) {
            return Err(24);
        }

        Ok(())
    }

    /// Attach a clock term: not negated (19), not on an undriven pin
    /// (42), not repeated (45); once recorded, only a registered output
    /// accepts it (48).
    pub fn set_clock(&mut self, act_pin: &Pin, term: Term) -> (r: Result<(), i32>)
        ensures
            ({
                let o = *old(self);
                if act_pin.neg != 0 {
                    &&& *final(self) == o
                    &&& r is Err
                    &&& r->Err_0 == 19
                } else if o.pin_type == PinType::UNDRIVEN {
                    &&& *final(self) == o
                    &&& r is Err
                    &&& r->Err_0 == 42
                } else if o.clock is Some {
                    &&& *final(self) == o
                    &&& r is Err
                    &&& r->Err_0 == 45
                } else {
                    &&& *final(self) == (OLMC { clock: Some(term), ..o })
                    &&& (if o.pin_type != PinType::REGOUT {
                        r is Err && r->Err_0 == 48
                    } else {
                        r is Ok
                    })
                }
            }),
    {
        if act_pin.neg != 0 {
            return Err(19);
        }

        if matches!(self.pin_type, PinType::UNDRIVEN) {
            return Err(42);
        }

        if self.clock.is_some() {
            return Err(45);
        }

        self.clock = Some(term);
        if !matches!(self.pin_type, PinType::REGOUT) {
            return Err(48);
        }

        Ok(())
    }

    /// Attach an asynchronous reset term: not negated (19), not on an
    /// undriven pin (43), not repeated (46); only a registered output
    /// accepts it (48).
    pub fn set_arst(&mut self, act_pin: &Pin, term: Term) -> (r: Result<(), i32>)
        ensures
            ({
                let o = *old(self);
                if act_pin.neg != 0 {
                    &&& *final(self) == o
                    &&& r is Err
                    &&& r->Err_0 == 19
                } else if o.pin_type == PinType::UNDRIVEN {
                    &&& *final(self) == o
                    &&& r is Err
                    &&& r->Err_0 == 43
                } else if o.arst is Some {
                    &&& *final(self) == o
                    &&& r is Err
                    &&& r->Err_0 == 46
                } else {
                    &&& *final(self) == (OLMC { arst: Some(term), ..o })
                    &&& (if o.pin_type != PinType::REGOUT {
                        r is Err && r->Err_0 == 48
                    } else {
                        r is Ok
                    })
                }
            }),
    {
        if act_pin.neg != 0 {
            return Err(19);
        }

        if matches!(self.pin_type, PinType::UNDRIVEN) {
            return Err(43);
        }

        if self.arst.is_some() {
            return Err(46);
        }

        self.arst = Some(term);
        if !matches!(self.pin_type, PinType::REGOUT) {
            return Err(48);
        }

        Ok(())
    }

    /// Attach an asynchronous preset term: not negated (19), not on an
    /// undriven pin (44), not repeated (47); only a registered output
    /// accepts it (48).
    pub fn set_aprst(&mut self, act_pin: &Pin, term: Term) -> (r: Result<(), i32>)
        ensures
            ({
                let o = *old(self);
                if act_pin.neg != 0 {
                    &&& *final(self) == o
                    &&& r is Err
                    &&& r->Err_0 == 19
                } else if o.pin_type == PinType::UNDRIVEN {
                    &&& *final(self) == o
                    &&& r is Err
                    &&& r->Err_0 == 44
                } else if o.aprst is Some {
                    &&& *final(self) == o
                    &&& r is Err
                    &&& r->Err_0 == 47
                } else {
                    &&& *final(self) == (OLMC { aprst: Some(term), ..o })
                    &&& (if o.pin_type != PinType::REGOUT {
                        r is Err && r->Err_0 == 48
                    } else {
                        r is Ok
                    })
                }
            }),
    {
        if act_pin.neg != 0 {
            return Err(19);
        }

        if matches!(self.pin_type, PinType::UNDRIVEN) {
            return Err(44);
        }

        if self.aprst.is_some() {
            return Err(47);
        }

        self.aprst = Some(term);
        if !matches!(self.pin_type, PinType::REGOUT) {
            return Err(48);
        }

        Ok(())
    }
}

/// Whether OLMC `i` blocks Mode 1 when used as a bare input: a few pins
/// of each V8 chip have no input path in Mode 1.
pub open spec fn mode1_input_blocked(chip: Chip, i: int) -> bool {
    match chip {
        Chip::GAL16V8 => i + 12 == 15 || i + 12 == 16,
        Chip::GAL20V8 => i + 15 == 18 || i + 15 == 19,
        _ => false,
    }
}

/// The three-level mode priority over declared pin roles.
pub open spec fn v8_mode_of(chip: Chip, olmcs: Seq<OLMC>) -> Mode {
    if exists|i: int| 0 <= i < 8 && (#[trigger] olmcs[i]).pin_type == PinType::REGOUT {
        Mode::Mode3
    } else if exists|i: int| 0 <= i < 8 && (#[trigger] olmcs[i]).pin_type == PinType::TRIOUT {
        Mode::Mode2
    } else if exists|i: int|
        0 <= i < 8 && (#[trigger] olmcs[i]).feedback && ((olmcs[i].pin_type == PinType::UNDRIVEN
            && mode1_input_blocked(chip, i)) || olmcs[i].pin_type == PinType::COMTRIOUT) {
        Mode::Mode2
    } else {
        Mode::Mode1
    }
}

/// Pick the GAL16V8/20V8 operating mode from the declared pin roles: a
/// registered pin forces Mode 3; else a tristate pin forces Mode 2;
/// else a pin that Mode 1 cannot serve (a blocked bare input, or
/// combinatorial feedback) forces Mode 2; else Mode 1.
pub fn get_mode_v8(jedec: &mut GAL, olmcs: &Vec<OLMC>) -> (m: Mode)
    requires
        olmcs@.len() >= 8,
    ensures
        *final(jedec) == *old(jedec),
        m == v8_mode_of(old(jedec).chip, olmcs@),
{
    // If there's a registered pin, it's mode 3.
    let mut n: usize = 0;
    while n < 8
        invariant
            olmcs@.len() >= 8,
            n <= 8,
            *jedec == *old(jedec),
            forall|i: int| 0 <= i < n ==> (#[trigger] olmcs@[i]).pin_type != PinType::REGOUT,
        decreases 8 - n,
    {
        if matches!(olmcs[n].pin_type, PinType::REGOUT) {
            return Mode::Mode3;
        }
        n += 1;
    }
    // If there's a tristate, it's mode 2.
    let mut n: usize = 0;
    while n < 8
        invariant
            olmcs@.len() >= 8,
            n <= 8,
            *jedec == *old(jedec),
            forall|i: int| 0 <= i < 8 ==> (#[trigger] olmcs@[i]).pin_type != PinType::REGOUT,
            forall|i: int| 0 <= i < n ==> (#[trigger] olmcs@[i]).pin_type != PinType::TRIOUT,
        decreases 8 - n,
    {
        if matches!(olmcs[n].pin_type, PinType::TRIOUT) {
            return Mode::Mode2;
        }
        n += 1;
    }
    // If we can't use mode 1, use mode 2.
    let chip = jedec.chip;
    let mut n: usize = 0;
    while n < 8
        invariant
            olmcs@.len() >= 8,
            n <= 8,
            *jedec == *old(jedec),
            chip == old(jedec).chip,
            forall|i: int| 0 <= i < 8 ==> (#[trigger] olmcs@[i]).pin_type != PinType::REGOUT,
            forall|i: int| 0 <= i < 8 ==> (#[trigger] olmcs@[i]).pin_type != PinType::TRIOUT,
            forall|i: int|
                0 <= i < n ==> !((#[trigger] olmcs@[i]).feedback && ((olmcs@[i].pin_type
                    == PinType::UNDRIVEN && mode1_input_blocked(chip, i)) || olmcs@[i].pin_type
                    == PinType::COMTRIOUT)),
        decreases 8 - n,
    {
        // Some pins cannot be used as input or feedback.
        if olmcs[n].feedback && matches!(olmcs[n].pin_type, PinType::UNDRIVEN) {
            if matches!(chip, Chip::GAL16V8) {
                let pin_num = n + 12;
                if pin_num == 15 || pin_num == 16 {
                    return Mode::Mode2;
                }
            }
            if matches!(chip, Chip::GAL20V8) {
                let pin_num = n + 15;
                if pin_num == 18 || pin_num == 19 {
                    return Mode::Mode2;
                }
            }
        }
        // Other pins cannot be used as feedback.
        if olmcs[n].feedback && matches!(olmcs[n].pin_type, PinType::COMTRIOUT) {
            return Mode::Mode2;
        }
        n += 1;
    }
    // If there is still no mode defined, use mode 1.
    Mode::Mode1
}

/// Get the mode for the GAL16V8/20V8 and record it in the SYN/AC0
/// selector bits.
pub fn analyse_mode_v8(jedec: &mut GAL, olmcs: &Vec<OLMC>) -> (m: Mode)
    requires
        olmcs@.len() >= 8,
    ensures
        m == v8_mode_of(old(jedec).chip, olmcs@),
        *final(jedec) == (GAL {
            syn: m != Mode::Mode3,
            ac0: m != Mode::Mode1,
            ..*old(jedec)
        }),
        mode_from_bits(final(jedec).syn, final(jedec).ac0) == m,
{
    let mode = get_mode_v8(jedec, olmcs);
    jedec.set_mode(mode);
    mode
}

/// How the analysis resolves a macrocell's declared role: a
/// combinatorial output that might be tristated becomes plain
/// combinatorial in Mode 1 on the V8 chips, and otherwise a tristate
/// output (enabled by constant VCC on the V8 chips).
pub open spec fn resolved(o: OLMC, chip: Chip, mode: Mode) -> OLMC {
    if o.pin_type == PinType::COMTRIOUT {
        match chip {
            Chip::GAL16V8 | Chip::GAL20V8 => {
                if mode == Mode::Mode1 {
                    OLMC { pin_type: PinType::COMOUT, ..o }
                } else {
                    OLMC { pin_type: PinType::TRIOUT, tri_con: Tri::VCC, ..o }
                }
            }
            _ => OLMC { pin_type: PinType::TRIOUT, ..o },
        }
    } else {
        o
    }
}

/// The tristate-control flag of a resolved macrocell: set for a bare
/// input used as feedback and for a tristate output.
pub open spec fn flag_cond(o: OLMC) -> bool {
    (o.pin_type == PinType::UNDRIVEN && o.feedback) || o.pin_type == PinType::TRIOUT
}

/// Does the macrocell drive an active-high output?
pub open spec fn xor_cond_olmc(o: OLMC) -> bool {
    o.output is Some && o.active == Active::HIGH
}

/// Resolve every macrocell's role and fill the chip's analysis-driven
/// bit planes: on the V8 chips the mode selectors, the product-term
/// disables, the AC1 flags and the XOR bits (returning the mode); on
/// the 22V10 the S1 flags and the XOR bits; on the 20RA10 the XOR bits.
#[verifier::rlimit(60)]
pub fn analyse_mode(jedec: &mut GAL, olmcs: &mut Vec<OLMC>) -> (r: Option<Mode>)
    requires
        old(jedec).wf(),
        old(olmcs)@.len() == old(jedec).chip.olmcs(),
        forall|k: int| 0 <= k < old(jedec).xor@.len() ==> #[trigger] old(jedec).xor@[k] == false,
        forall|k: int| 0 <= k < 8 ==> #[trigger] old(jedec).ac1@[k] == false,
        forall|k: int| 0 <= k < 10 ==> #[trigger] old(jedec).s1@[k] == false,
    ensures
        final(jedec).wf(),
        final(olmcs)@.len() == old(olmcs)@.len(),
        forall|n: int|
            0 <= n < old(olmcs)@.len() ==> final(olmcs)@[n] == resolved(
                #[trigger] old(olmcs)@[n],
                old(jedec).chip,
                v8_mode_of(old(jedec).chip, old(olmcs)@),
            ),
        forall|j: int|
            0 <= j < old(olmcs)@.len() ==> final(jedec).xor@[old(olmcs)@.len() - 1 - j]
                == xor_cond_olmc(#[trigger] old(olmcs)@[j]),
        ({
            let chip = old(jedec).chip;
            let mode = v8_mode_of(chip, old(olmcs)@);
            match chip {
                Chip::GAL16V8 | Chip::GAL20V8 => {
                    &&& r == Some(mode)
                    &&& *final(jedec) == (GAL {
                        syn: mode != Mode::Mode3,
                        ac0: mode != Mode::Mode1,
                        pt: final(jedec).pt,
                        ac1: final(jedec).ac1,
                        xor: final(jedec).xor,
                        ..*old(jedec)
                    })
                    &&& forall|k: int| 0 <= k < 64 ==> #[trigger] final(jedec).pt@[k] == true
                    &&& forall|j: int|
                        0 <= j < 8 ==> final(jedec).ac1@[7 - j] == flag_cond(
                            resolved(#[trigger] old(olmcs)@[j], chip, mode),
                        )
                }
                Chip::GAL22V10 => {
                    &&& r is None
                    &&& *final(jedec) == (GAL {
                        s1: final(jedec).s1,
                        xor: final(jedec).xor,
                        ..*old(jedec)
                    })
                    &&& forall|j: int|
                        0 <= j < 10 ==> final(jedec).s1@[9 - j] == flag_cond(
                            resolved(#[trigger] old(olmcs)@[j], chip, mode),
                        )
                }
                Chip::GAL20RA10 => {
                    &&& r is None
                    &&& *final(jedec) == (GAL { xor: final(jedec).xor, ..*old(jedec) })
                }
            }
        }),
{
    let ghost chip = jedec.chip;
    let ghost olmcs0 = olmcs@;
    let ghost mode_g = v8_mode_of(chip, olmcs0);
    let num = olmcs.len();
    match jedec.chip {
        Chip::GAL16V8 | Chip::GAL20V8 => {
            let mode = analyse_mode_v8(jedec, olmcs);

            let mut n: usize = 0;
            while n < 8
                invariant
                    olmcs@.len() == olmcs0.len() == 8,
                    0 <= n <= 8,
                    mode == mode_g,
                    chip == Chip::GAL16V8 || chip == Chip::GAL20V8,
                    forall|j: int|
                        0 <= j < n ==> olmcs@[j] == resolved(
                            #[trigger] olmcs0[j],
                            chip,
                            mode_g,
                        ),
                    forall|j: int| n <= j < 8 ==> #[trigger] olmcs@[j] == olmcs0[j],
                decreases 8 - n,
            {
                let ghost prevs = olmcs@;
                if matches!(olmcs[n].pin_type, PinType::COMTRIOUT) {
                    let elem = &mut olmcs[n];
                    if matches!(mode, Mode::Mode1) {
                        elem.pin_type = PinType::COMOUT;
                    } else {
                        elem.pin_type = PinType::TRIOUT;
                        // Set to VCC.
                        elem.tri_con = Tri::VCC;
                    }
                }
                proof {
                    assert(olmcs@[n as int] == resolved(olmcs0[n as int], chip, mode_g));
                    assert(forall|j: int|
                        0 <= j < 8 && j != n ==> #[trigger] olmcs@[j] == prevs[j]);
                }
                n += 1;
            }

            // SYN and AC0 already defined.
            let mut n: usize = 0;
            while n < 64
                invariant
                    jedec.pt@.len() == 64,
                    *jedec == (GAL {
                        syn: mode_g != Mode::Mode3,
                        ac0: mode_g != Mode::Mode1,
                        pt: jedec.pt,
                        ..*old(jedec)
                    }),
                    0 <= n <= 64,
                    forall|k: int| 0 <= k < n ==> #[trigger] jedec.pt@[k] == true,
                decreases 64 - n,
            {
                jedec.pt.set(n, true);
                n += 1;
            }

            let mut n: usize = 0;
            while n < 8
                invariant
                    olmcs@.len() == 8,
                    jedec.ac1@.len() == 8,
                    jedec.pt@.len() == 64,
                    *jedec == (GAL {
                        syn: mode_g != Mode::Mode3,
                        ac0: mode_g != Mode::Mode1,
                        pt: jedec.pt,
                        ac1: jedec.ac1,
                        ..*old(jedec)
                    }),
                    forall|k: int| 0 <= k < 64 ==> #[trigger] jedec.pt@[k] == true,
                    0 <= n <= 8,
                    forall|j: int|
                        0 <= j < 8 ==> olmcs@[j] == resolved(#[trigger] olmcs0[j], chip, mode_g),
                    forall|k: int| 0 <= k < old(jedec).ac1@.len() ==> old(jedec).ac1@[k] == false,
                    forall|j: int|
                        0 <= j < 8 ==> jedec.ac1@[7 - j] == (j < n && flag_cond(
                            resolved(#[trigger] olmcs0[j], chip, mode_g),
                        )),
                decreases 8 - n,
            {
                let ghost prev = jedec.ac1@;
                let cond = (matches!(olmcs[n].pin_type, PinType::UNDRIVEN) && olmcs[n].feedback)
                    || matches!(olmcs[n].pin_type, PinType::TRIOUT);
                proof {
                    assert(cond == flag_cond(resolved(olmcs0[n as int], chip, mode_g)));
                }
                if cond {
                    jedec.ac1.set(7 - n, true);
                }
                n += 1;
            }

            let mut n: usize = 0;
            while n < 8
                invariant
                    olmcs@.len() == 8,
                    jedec.xor@.len() == old(jedec).xor@.len() == 8,
                    jedec.ac1@.len() == 8,
                    jedec.pt@.len() == 64,
                    *jedec == (GAL {
                        syn: mode_g != Mode::Mode3,
                        ac0: mode_g != Mode::Mode1,
                        pt: jedec.pt,
                        ac1: jedec.ac1,
                        xor: jedec.xor,
                        ..*old(jedec)
                    }),
                    forall|k: int| 0 <= k < 64 ==> #[trigger] jedec.pt@[k] == true,
                    forall|j: int|
                        0 <= j < 8 ==> jedec.ac1@[7 - j] == flag_cond(
                            resolved(#[trigger] olmcs0[j], chip, mode_g),
                        ),
                    0 <= n <= 8,
                    forall|j: int|
                        0 <= j < 8 ==> olmcs@[j] == resolved(#[trigger] olmcs0[j], chip, mode_g),
                    forall|k: int| 0 <= k < old(jedec).xor@.len() ==> old(jedec).xor@[k] == false,
                    forall|j: int|
                        0 <= j < 8 ==> jedec.xor@[7 - j] == (j < n && xor_cond_olmc(
                            #[trigger] olmcs0[j],
                        )),
                decreases 8 - n,
            {
                let cond = olmcs[n].output.is_some() && matches!(olmcs[n].active, Active::HIGH);
                proof {
                    assert(cond == xor_cond_olmc(olmcs0[n as int]));
                }
                if cond {
                    jedec.xor.set(7 - n, true);
                }
                n += 1;
            }

            return Some(mode);
        }

        Chip::GAL22V10 => {
            let mut n: usize = 0;
            while n < 10
                invariant
                    olmcs@.len() == olmcs0.len() == 10,
                    chip == Chip::GAL22V10,
                    jedec.xor@.len() == old(jedec).xor@.len() == 10,
                    jedec.s1@.len() == 10,
                    *jedec == (GAL { xor: jedec.xor, s1: jedec.s1, ..*old(jedec) }),
                    0 <= n <= 10,
                    forall|j: int|
                        0 <= j < n ==> olmcs@[j] == resolved(#[trigger] olmcs0[j], chip, mode_g),
                    forall|j: int| n <= j < 10 ==> #[trigger] olmcs@[j] == olmcs0[j],
                    forall|k: int| 0 <= k < old(jedec).xor@.len() ==> old(jedec).xor@[k] == false,
                    forall|k: int| 0 <= k < 10 ==> old(jedec).s1@[k] == false,
                    forall|j: int|
                        0 <= j < 10 ==> jedec.xor@[9 - j] == (j < n && xor_cond_olmc(
                            #[trigger] olmcs0[j],
                        )),
                    forall|j: int|
                        0 <= j < 10 ==> jedec.s1@[9 - j] == (j < n && flag_cond(
                            resolved(#[trigger] olmcs0[j], chip, mode_g),
                        )),
                decreases 10 - n,
            {
                let ghost prevs = olmcs@;
                if matches!(olmcs[n].pin_type, PinType::COMTRIOUT) {
                    let elem = &mut olmcs[n];
                    elem.pin_type = PinType::TRIOUT;
                }
                proof {
                    assert(olmcs@[n as int] == resolved(olmcs0[n as int], chip, mode_g));
                    assert(forall|j: int|
                        0 <= j < 10 && j != n ==> #[trigger] olmcs@[j] == prevs[j]);
                }

                let xcond = olmcs[n].output.is_some() && matches!(olmcs[n].active, Active::HIGH);
                proof {
                    assert(xcond == xor_cond_olmc(olmcs0[n as int]));
                }
                if xcond {
                    jedec.xor.set(9 - n, true);
                }

                let scond = (matches!(olmcs[n].pin_type, PinType::UNDRIVEN) && olmcs[n].feedback)
                    || matches!(olmcs[n].pin_type, PinType::TRIOUT);
                proof {
                    assert(scond == flag_cond(resolved(olmcs0[n as int], chip, mode_g)));
                }
                if scond {
                    jedec.s1.set(9 - n, true);
                }
                n += 1;
            }
        }

        Chip::GAL20RA10 => {
            let mut n: usize = 0;
            while n < 10
                invariant
                    olmcs@.len() == olmcs0.len() == 10,
                    chip == Chip::GAL20RA10,
                    jedec.xor@.len() == old(jedec).xor@.len() == 10,
                    *jedec == (GAL { xor: jedec.xor, ..*old(jedec) }),
                    0 <= n <= 10,
                    forall|j: int|
                        0 <= j < n ==> olmcs@[j] == resolved(#[trigger] olmcs0[j], chip, mode_g),
                    forall|j: int| n <= j < 10 ==> #[trigger] olmcs@[j] == olmcs0[j],
                    forall|k: int| 0 <= k < old(jedec).xor@.len() ==> old(jedec).xor@[k] == false,
                    forall|j: int|
                        0 <= j < 10 ==> jedec.xor@[9 - j] == (j < n && xor_cond_olmc(
                            #[trigger] olmcs0[j],
                        )),
                decreases 10 - n,
            {
                let ghost prevs = olmcs@;
                if matches!(olmcs[n].pin_type, PinType::COMTRIOUT) {
                    let elem = &mut olmcs[n];
                    elem.pin_type = PinType::TRIOUT;
                }
                proof {
                    assert(olmcs@[n as int] == resolved(olmcs0[n as int], chip, mode_g));
                    assert(forall|j: int|
                        0 <= j < 10 && j != n ==> #[trigger] olmcs@[j] == prevs[j]);
                }

                let xcond = olmcs[n].output.is_some() && matches!(olmcs[n].active, Active::HIGH);
                proof {
                    assert(xcond == xor_cond_olmc(olmcs0[n as int]));
                }
                if xcond {
                    jedec.xor.set(9 - n, true);
                }
                n += 1;
            }
        }
    }

    None
}

} // verus!
