//! The resolved intermediate representation handed to the synthesizer:
//! per-pin logic equations plus the chip type.

use vstd::prelude::*;

verus! {

use crate::chips::Chip;
use crate::gal::Term;
use crate::gal::opt_term_wf;
use crate::gal::term_wf;

/// Output polarity of a driven pin.
#[derive(Clone, Copy, Debug, PartialEq, Eq, Structural)]
pub enum Active {
    Low,
    High,
}

/// How a driven output pin behaves.
#[derive(Clone, Copy, Debug, PartialEq, Eq, Structural)]
pub enum PinMode {
    Combinatorial,
    Tristate,
    Registered,
}

/// Per-pin configuration of one Output Logic Macrocell.
#[derive(Clone, Debug, PartialEq)]
pub struct OLMC {
    /// Output polarity.
    pub active: Active,
    /// The driven output, if any: its mode and its sum-of-products term.
    /// Absent means the pin is input-only or feedback-only.
    pub output: Option<(PinMode, Term)>,
    /// Tristate-enable term (a single product term), if any.
    pub tri_con: Option<Term>,
    /// Clock term (GAL20RA10 only).
    pub clock: Option<Term>,
    /// Asynchronous reset term (GAL20RA10 only).
    pub arst: Option<Term>,
    /// Asynchronous preset term (GAL20RA10 only).
    pub aprst: Option<Term>,
    /// Is the pin used as combinatorial feedback by other logic?
    pub feedback: bool,
}

impl OLMC {
    /// Every term the OLMC holds selects only columns of the chip's rows.
    pub open spec fn wf(self, chip: Chip) -> bool {
        &&& match self.output {
            Some((_, t)) => term_wf(t, chip),
            None => true,
        }
        &&& opt_term_wf(self.tri_con, chip)
        &&& opt_term_wf(self.clock, chip)
        &&& opt_term_wf(self.arst, chip)
        &&& opt_term_wf(self.aprst, chip)
    }
}

/// The synthesizer's input: chip type, signature bytes, one OLMC per
/// output pin, and the 22V10's global async-reset and sync-preset terms.
#[derive(Clone, Debug, PartialEq)]
pub struct Blueprint {
    pub chip: Chip,
    /// Signature byte sequence (at most 8 bytes).
    pub sig: Vec<u8>,
    /// One entry per OLMC of the chip.
    pub olmcs: Vec<OLMC>,
    /// Global asynchronous reset term (22V10 only).
    pub ar: Option<Term>,
    /// Global synchronous preset term (22V10 only).
    pub sp: Option<Term>,
}

impl Blueprint {
    /// The number of OLMCs matches the chip, the signature fits its
    /// field, and every term is within the chip's row width.
    pub open spec fn wf(self) -> bool {
        &&& self.olmcs@.len() == self.chip.olmcs()
        &&& self.sig@.len() <= 8
        &&& forall|i: int| 0 <= i < self.olmcs@.len() ==> (#[trigger] self.olmcs@[i]).wf(self.chip)
        &&& opt_term_wf(self.ar, self.chip)
        &&& opt_term_wf(self.sp, self.chip)
    }
}

} // verus!
