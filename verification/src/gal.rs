//! The GAL fuse map and the term placer: writing sum-of-products terms
//! into rows of the fuse matrix.

use vstd::prelude::*;

verus! {

use vstd::pervasive::VecAdditionalExecFns;
use crate::chips::Chip;
use crate::errors::Error;
use crate::errors::ErrorCode;

/// A sum-of-products term: an ordered sequence of product rows. Each row
/// lists the fuse columns whose fuse is to be programmed (cleared); a
/// column left unlisted keeps its fuse intact. The line number is carried
/// for diagnostics only.
#[derive(Clone, Debug, PartialEq)]
pub struct Term {
    pub line_num: u32,
    pub rows: Vec<Vec<usize>>,
}

/// A row-range descriptor for one OLMC's region of the fuse matrix.
/// `row_offset` rows at the top of the region are reserved for auxiliary
/// terms and skipped by the main placement.
#[derive(Clone, Copy, Debug, PartialEq, Eq, Structural)]
pub struct Bounds {
    pub start_row: usize,
    pub max_row: usize,
    pub row_offset: usize,
}

/// One of the three operating configurations of the GAL16V8/20V8.
#[derive(Clone, Copy, Debug, PartialEq, Eq, Structural)]
pub enum Mode {
    Mode1,
    Mode2,
    Mode3,
}

/// The product rows of a term, as a sequence of sequences of columns.
pub open spec fn rows_view(t: Term) -> Seq<Seq<usize>> {
    t.rows@.map_values(|r: Vec<usize>| r@)
}

/// Does product row `row` select column `c`?
pub open spec fn row_has(row: Seq<usize>, c: int) -> bool {
    exists|j: int| 0 <= j < row.len() && row[j] == c
}

/// Every column a term's rows select lies inside the chip's row width.
pub open spec fn term_wf(t: Term, chip: Chip) -> bool {
    forall|k: int, j: int|
        0 <= k < t.rows@.len() && 0 <= j < t.rows@[k]@.len() ==> (#[trigger] t.rows@[k]@[j])
            < chip.cols()
}

pub open spec fn opt_term_wf(t: Option<Term>, chip: Chip) -> bool {
    match t {
        Some(t) => term_wf(t, chip),
        None => true,
    }
}

/// The rows a placement writes: those of the term for `Some`, none for
/// `None` (the whole writable range is then disabled).
pub open spec fn opt_rows(t: Option<Term>) -> Seq<Seq<usize>> {
    match t {
        Some(t) => rows_view(t),
        None => Seq::empty(),
    }
}

/// The diagnostic line of an optional term (0 when absent).
pub open spec fn opt_line(t: Option<Term>) -> u32 {
    match t {
        Some(t) => t.line_num,
        None => 0,
    }
}

/// The bounds describe a region inside the chip's fuse matrix.
pub open spec fn bounds_wf(b: Bounds, chip: Chip) -> bool {
    &&& b.row_offset <= b.max_row
    &&& b.start_row + b.max_row <= chip.rows()
}

/// The value of a fuse in writable row `k` of a placement of `trows`:
/// rows holding a product term keep a fuse intact exactly when the row
/// does not select its column; rows past the term are disabled (all
/// fuses programmed).
pub open spec fn fuse_after(oldv: bool, trows: Seq<Seq<usize>>, k: int, c: int) -> bool {
    if 0 <= k < trows.len() {
        oldv && !row_has(trows[k], c)
    } else {
        false
    }
}

/// How one placement of `trows` into the writable rows `[lo, hi)`
/// rewrites the fuse matrix: rows outside the range are untouched;
/// inside it each fuse follows `fuse_after`.
pub open spec fn placed(g0: GAL, g1: GAL, trows: Seq<Seq<usize>>, lo: int, hi: int) -> bool {
    &&& g1.fuses@.len() == g0.fuses@.len()
    &&& forall|r: int|
        0 <= r < g0.fuses@.len() && !(lo <= r < hi) ==> #[trigger] g1.fuses@[r] == g0.fuses@[r]
    &&& forall|r: int, c: int|
        lo <= r < hi && 0 <= c < g0.chip.cols() ==> g1.fuse(r, c) == fuse_after(
            #[trigger] g0.fuse(r, c),
            trows,
            r - lo,
            c,
        )
}

/// The target fuse map: the main fuse matrix plus the chip's
/// configuration bit planes.
#[derive(Clone, Debug, PartialEq)]
pub struct GAL {
    pub chip: Chip,
    pub fuses: Vec<Vec<bool>>,
    pub xor: Vec<bool>,
    pub sig: Vec<bool>,
    pub ac1: Vec<bool>,
    pub pt: Vec<bool>,
    pub syn: bool,
    pub ac0: bool,
    pub s1: Vec<bool>,
}

/// The fuse matrix holds only intact fuses.
pub open spec fn all_fuses_intact(g: GAL) -> bool {
    forall|r: int, c: int|
        0 <= r < g.chip.rows() && 0 <= c < g.chip.cols() ==> #[trigger] g.fuse(r, c) == true
}

/// A blank fuse map: every fuse intact, every configuration bit clear.
pub open spec fn is_blank(g: GAL) -> bool {
    &&& g.wf()
    &&& all_fuses_intact(g)
    &&& forall|k: int| 0 <= k < g.xor@.len() ==> #[trigger] g.xor@[k] == false
    &&& forall|k: int| 0 <= k < 64 ==> #[trigger] g.sig@[k] == false
    &&& forall|k: int| 0 <= k < 8 ==> #[trigger] g.ac1@[k] == false
    &&& forall|k: int| 0 <= k < 64 ==> #[trigger] g.pt@[k] == false
    &&& forall|k: int| 0 <= k < 10 ==> #[trigger] g.s1@[k] == false
    &&& g.syn == false
    &&& g.ac0 == false
}

/// The mode encoded by the SYN/AC0 selector bits.
pub open spec fn mode_from_bits(syn: bool, ac0: bool) -> Mode {
    if !syn {
        Mode::Mode3
    } else if ac0 {
        Mode::Mode2
    } else {
        Mode::Mode1
    }
}

impl GAL {
    /// Every bit plane has the size the chip dictates.
    pub open spec fn wf(self) -> bool {
        &&& self.fuses@.len() == self.chip.rows()
        &&& forall|r: int|
            0 <= r < self.fuses@.len() ==> (#[trigger] self.fuses@[r])@.len() == self.chip.cols()
        &&& self.xor@.len() == self.chip.olmcs()
        &&& self.sig@.len() == 64
        &&& self.ac1@.len() == 8
        &&& self.pt@.len() == 64
        &&& self.s1@.len() == 10
    }

    /// The fuse at row `r`, column `c`.
    pub open spec fn fuse(self, r: int, c: int) -> bool {
        self.fuses@[r]@[c]
    }

    /// A blank fuse map for `chip`: every fuse intact (1), every
    /// configuration bit clear.
    pub fn new(chip: Chip) -> (g: GAL)
        ensures
            g.wf(),
            g.chip == chip,
            is_blank(g),
            forall|r: int, c: int|
                0 <= r < chip.rows() && 0 <= c < chip.cols() ==> #[trigger] g.fuse(r, c) == true,
            forall|i: int| 0 <= i < g.xor@.len() ==> #[trigger] g.xor@[i] == false,
            forall|i: int| 0 <= i < 64 ==> #[trigger] g.sig@[i] == false,
            forall|i: int| 0 <= i < 8 ==> #[trigger] g.ac1@[i] == false,
            forall|i: int| 0 <= i < 64 ==> #[trigger] g.pt@[i] == false,
            forall|i: int| 0 <= i < 10 ==> #[trigger] g.s1@[i] == false,
            g.syn == false,
            g.ac0 == false,
    {
        let rows = chip.num_rows();
        let cols = chip.num_cols();
        GAL {
            chip,
            fuses: bool_matrix(rows, cols, true),
            xor: bool_vec(chip.num_olmcs(), false),
            sig: bool_vec(64, false),
            ac1: bool_vec(8, false),
            pt: bool_vec(64, false),
            syn: false,
            ac0: false,
            s1: bool_vec(10, false),
        }
    }

    /// Record the chosen V8 mode in the SYN and AC0 selector bits.
    pub fn set_mode(&mut self, mode: Mode)
        ensures
            *final(self) == (GAL {
                syn: mode != Mode::Mode3,
                ac0: mode != Mode::Mode1,
                ..*old(self)
            }),
            mode_from_bits(final(self).syn, final(self).ac0) == mode,
    {
        match mode {
            Mode::Mode1 => {
                self.syn = true;
                self.ac0 = false;
            }
            Mode::Mode2 => {
                self.syn = true;
                self.ac0 = true;
            }
            Mode::Mode3 => {
                self.syn = false;
                self.ac0 = true;
            }
        }
    }

    /// The mode previously recorded by `set_mode`.
    pub fn get_mode(&self) -> (m: Mode)
        ensures
            m == mode_from_bits(self.syn, self.ac0),
    {
        if !self.syn {
            Mode::Mode3
        } else if self.ac0 {
            Mode::Mode2
        } else {
            Mode::Mode1
        }
    }

    /// Write a sum-of-products term into the fuse matrix under `bounds`.
    ///
    /// The first `row_offset` rows of the region are skipped; the term's
    /// rows are placed from there on, and any writable rows left over are
    /// disabled (all fuses programmed). Fails with `TooManyProductTerms`
    /// when the term holds more rows than the writable range admits, and
    /// then leaves the fuse map unchanged.
    pub fn add_term(&mut self, term: &Term, bounds: &Bounds) -> (res: Result<(), Error>)
        requires
            old(self).wf(),
            bounds_wf(*bounds, old(self).chip),
            term_wf(*term, old(self).chip),
        ensures
            final(self).wf(),
            final(self).chip == old(self).chip,
            final(self).xor == old(self).xor,
            final(self).sig == old(self).sig,
            final(self).ac1 == old(self).ac1,
            final(self).pt == old(self).pt,
            final(self).s1 == old(self).s1,
            final(self).syn == old(self).syn,
            final(self).ac0 == old(self).ac0,
            res is Ok <==> rows_view(*term).len() <= bounds.max_row - bounds.row_offset,
            res matches Err(e) ==> e == (Error {
                code: ErrorCode::TooManyProductTerms,
                line: term.line_num,
            }) && *final(self) == *old(self),
            res is Ok ==> placed(
                *old(self),
                *final(self),
                rows_view(*term),
                bounds.start_row + bounds.row_offset,
                bounds.start_row + bounds.max_row,
            ),
    {
        let avail = bounds.max_row - bounds.row_offset;
        if term.rows.len() > avail {
            return Err(Error { code: ErrorCode::TooManyProductTerms, line: term.line_num });
        }
        let cols = self.chip.num_cols();
        let lo = bounds.start_row + bounds.row_offset;
        let mut k: usize = 0;
        while k < avail
            invariant
                old(self).wf(),
                self.chip == old(self).chip,
                self.xor == old(self).xor,
                self.sig == old(self).sig,
                self.ac1 == old(self).ac1,
                self.pt == old(self).pt,
                self.s1 == old(self).s1,
                self.syn == old(self).syn,
                self.ac0 == old(self).ac0,
                self.fuses@.len() == old(self).fuses@.len(),
                forall|r: int|
                    0 <= r < self.fuses@.len() ==> (#[trigger] self.fuses@[r])@.len()
                        == self.chip.cols(),
                cols == self.chip.cols(),
                lo == bounds.start_row + bounds.row_offset,
                avail == bounds.max_row - bounds.row_offset,
                bounds_wf(*bounds, self.chip),
                term_wf(*term, self.chip),
                rows_view(*term).len() <= avail,
                0 <= k <= avail,
                forall|r: int|
                    0 <= r < self.fuses@.len() && !(lo <= r < lo + k) ==> #[trigger] self.fuses@[r]
                        == old(self).fuses@[r],
                forall|r: int, c: int|
                    lo <= r < lo + k && 0 <= c < cols ==> self.fuse(r, c) == fuse_after(
                        #[trigger] old(self).fuse(r, c),
                        rows_view(*term),
                        r - lo,
                        c,
                    ),
            decreases avail - k,
        {
            let r = lo + k;
            proof {
                assert(rows_view(*term).len() == term.rows@.len());
            }
            if k < term.rows.len() {
                let newrow = masked_row(&self.fuses, r, &term.rows[k], cols);
                self.fuses.set(r, newrow);
                proof {
                    assert(rows_view(*term)[k as int] == term.rows@[k as int]@);
                }
            } else {
                self.fuses.set(r, bool_vec(cols, false));
            }
            k += 1;
        }
        Ok(())
    }

    /// Place an optional term: an absent term disables the entire
    /// writable range.
    pub fn add_term_opt(&mut self, term: &Option<Term>, bounds: &Bounds) -> (res: Result<
        (),
        Error,
    >)
        requires
            old(self).wf(),
            bounds_wf(*bounds, old(self).chip),
            opt_term_wf(*term, old(self).chip),
        ensures
            final(self).wf(),
            final(self).chip == old(self).chip,
            final(self).xor == old(self).xor,
            final(self).sig == old(self).sig,
            final(self).ac1 == old(self).ac1,
            final(self).pt == old(self).pt,
            final(self).s1 == old(self).s1,
            final(self).syn == old(self).syn,
            final(self).ac0 == old(self).ac0,
            res is Ok <==> opt_rows(*term).len() <= bounds.max_row - bounds.row_offset,
            res matches Err(e) ==> e == (Error {
                code: ErrorCode::TooManyProductTerms,
                line: opt_line(*term),
            }) && *final(self) == *old(self),
            res is Ok ==> placed(
                *old(self),
                *final(self),
                opt_rows(*term),
                bounds.start_row + bounds.row_offset,
                bounds.start_row + bounds.max_row,
            ),
    {
        match term {
            Some(t) => self.add_term(t, bounds),
            None => {
                let empty = Term { line_num: 0, rows: Vec::new() };
                proof {
                    assert(rows_view(empty) =~= Seq::<Seq<usize>>::empty());
                }
                self.add_term(&empty, bounds)
            }
        }
    }
}

/// The always-false term: a single product row selecting no columns,
/// leaving every fuse of its row intact. Unused outputs drive low; their
/// absence is materialized as this concrete term.
pub fn false_term(line_num: u32) -> (t: Term)
    ensures
        t.line_num == line_num,
        rows_view(t).len() == 1,
        rows_view(t)[0].len() == 0,
{
    let mut rows: Vec<Vec<usize>> = Vec::new();
    rows.push(Vec::new());
    Term { line_num, rows }
}

/// A vector of `n` copies of `val`.
fn bool_vec(n: usize, val: bool) -> (v: Vec<bool>)
    ensures
        v@.len() == n,
        forall|i: int| 0 <= i < n ==> #[trigger] v@[i] == val,
{
    let mut v: Vec<bool> = Vec::new();
    let mut i: usize = 0;
    while i < n
        invariant
            i <= n,
            v@.len() == i,
            forall|j: int| 0 <= j < i ==> #[trigger] v@[j] == val,
        decreases n - i,
    {
        v.push(val);
        i += 1;
    }
    v
}

/// A `rows` by `cols` matrix of `val`.
fn bool_matrix(rows: usize, cols: usize, val: bool) -> (m: Vec<Vec<bool>>)
    ensures
        m@.len() == rows,
        forall|r: int|
            0 <= r < rows ==> (#[trigger] m@[r])@.len() == cols && forall|c: int|
                0 <= c < cols ==> m@[r]@[c] == val,
{
    let mut m: Vec<Vec<bool>> = Vec::new();
    let mut r: usize = 0;
    while r < rows
        invariant
            r <= rows,
            m@.len() == r,
            forall|i: int|
                0 <= i < r ==> (#[trigger] m@[i])@.len() == cols && forall|c: int|
                    0 <= c < cols ==> m@[i]@[c] == val,
        decreases rows - r,
    {
        m.push(bool_vec(cols, val));
        r += 1;
    }
    m
}

/// Does the product row select column `c`?
fn row_has_col(trow: &Vec<usize>, c: usize) -> (r: bool)
    ensures
        r == row_has(trow@, c as int),
{
    let mut j: usize = 0;
    while j < trow.len()
        invariant
            j <= trow@.len(),
            forall|i: int| 0 <= i < j ==> trow@[i] != c,
        decreases trow@.len() - j,
    {
        if trow[j] == c {
            return true;
        }
        j += 1;
    }
    false
}

/// Row `r` of the matrix with the fuses of the columns `trow` selects
/// programmed (cleared).
fn masked_row(m: &Vec<Vec<bool>>, r: usize, trow: &Vec<usize>, cols: usize) -> (out: Vec<bool>)
    requires
        r < m@.len(),
        m@[r as int]@.len() == cols,
    ensures
        out@.len() == cols,
        forall|c: int|
            0 <= c < cols ==> #[trigger] out@[c] == (m@[r as int]@[c] && !row_has(trow@, c)),
{
    let mut out: Vec<bool> = Vec::new();
    let mut c: usize = 0;
    while c < cols
        invariant
            c <= cols,
            r < m@.len(),
            m@[r as int]@.len() == cols,
            out@.len() == c,
            forall|i: int|
                0 <= i < c ==> #[trigger] out@[i] == (m@[r as int]@[i] && !row_has(trow@, i)),
        decreases cols - c,
    {
        let keep = m[r][c] && !row_has_col(trow, c);
        out.push(keep);
        c += 1;
    }
    out
}

} // verus!
