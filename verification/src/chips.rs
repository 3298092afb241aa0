//! Chip geometry: the row layout of the fuse matrix for each of the four
//! supported GAL variants.

use vstd::prelude::*;

verus! {

use crate::gal::Bounds;

/// The four supported GAL device types.
#[derive(Clone, Copy, Debug, PartialEq, Eq, Structural)]
pub enum Chip {
    GAL16V8,
    GAL20V8,
    GAL22V10,
    GAL20RA10,
}

impl Chip {
    /// Total number of rows in the fuse matrix.
    pub open spec fn rows(self) -> int {
        match self {
            Chip::GAL16V8 => 64,
            Chip::GAL20V8 => 64,
            Chip::GAL22V10 => 132,
            Chip::GAL20RA10 => 80,
        }
    }

    /// Number of fuse columns per row (input lines times polarity).
    pub open spec fn cols(self) -> int {
        match self {
            Chip::GAL16V8 => 32,
            Chip::GAL20V8 => 40,
            Chip::GAL22V10 => 44,
            Chip::GAL20RA10 => 40,
        }
    }

    /// Number of output logic macrocells.
    pub open spec fn olmcs(self) -> int {
        match self {
            Chip::GAL16V8 => 8,
            Chip::GAL20V8 => 8,
            Chip::GAL22V10 => 10,
            Chip::GAL20RA10 => 10,
        }
    }

    /// Number of rows allocated to OLMC `i`.
    pub open spec fn olmc_size(self, i: int) -> int {
        match self {
            Chip::GAL22V10 => {
                if i == 0 { 9 }
                else if i == 1 { 11 }
                else if i == 2 { 13 }
                else if i == 3 { 15 }
                else if i == 4 { 17 }
                else if i == 5 { 17 }
                else if i == 6 { 15 }
                else if i == 7 { 13 }
                else if i == 8 { 11 }
                else { 9 }
            }
            _ => 8,
        }
    }

    /// Absolute fuse-matrix row where OLMC `i`'s region begins.
    pub open spec fn olmc_start(self, i: int) -> int {
        match self {
            Chip::GAL22V10 => {
                if i == 0 { 1 }
                else if i == 1 { 10 }
                else if i == 2 { 21 }
                else if i == 3 { 34 }
                else if i == 4 { 49 }
                else if i == 5 { 66 }
                else if i == 6 { 83 }
                else if i == 7 { 98 }
                else if i == 8 { 111 }
                else { 122 }
            }
            _ => 8 * i,
        }
    }

    pub fn num_rows(self) -> (r: usize)
        ensures
            r == self.rows(),
    {
        match self {
            Chip::GAL16V8 => 64,
            Chip::GAL20V8 => 64,
            Chip::GAL22V10 => 132,
            Chip::GAL20RA10 => 80,
        }
    }

    pub fn num_cols(self) -> (r: usize)
        ensures
            r == self.cols(),
    {
        match self {
            Chip::GAL16V8 => 32,
            Chip::GAL20V8 => 40,
            Chip::GAL22V10 => 44,
            Chip::GAL20RA10 => 40,
        }
    }

    pub fn num_olmcs(self) -> (r: usize)
        ensures
            r == self.olmcs(),
    {
        match self {
            Chip::GAL16V8 => 8,
            Chip::GAL20V8 => 8,
            Chip::GAL22V10 => 10,
            Chip::GAL20RA10 => 10,
        }
    }

    /// The row range allocated to OLMC `i`, with no rows yet reserved.
    pub fn get_bounds(self, i: usize) -> (b: Bounds)
        requires
            i < self.olmcs(),
        ensures
            b.start_row == self.olmc_start(i as int),
            b.max_row == self.olmc_size(i as int),
            b.row_offset == 0,
    {
        match self {
            Chip::GAL22V10 => {
                let start: usize = if i == 0 { 1 }
                    else if i == 1 { 10 }
                    else if i == 2 { 21 }
                    else if i == 3 { 34 }
                    else if i == 4 { 49 }
                    else if i == 5 { 66 }
                    else if i == 6 { 83 }
                    else if i == 7 { 98 }
                    else if i == 8 { 111 }
                    else { 122 };
                let size: usize = if i == 0 { 9 }
                    else if i == 1 { 11 }
                    else if i == 2 { 13 }
                    else if i == 3 { 15 }
                    else if i == 4 { 17 }
                    else if i == 5 { 17 }
                    else if i == 6 { 15 }
                    else if i == 7 { 13 }
                    else if i == 8 { 11 }
                    else { 9 };
                Bounds { start_row: start, max_row: size, row_offset: 0 }
            }
            _ => Bounds { start_row: 8 * i, max_row: 8, row_offset: 0 },
        }
    }

    /// Each OLMC region lies inside the fuse matrix.
    pub proof fn lemma_region_in_matrix(self, i: int)
        requires
            0 <= i < self.olmcs(),
        ensures
            0 <= self.olmc_start(i),
            self.olmc_start(i) + self.olmc_size(i) <= self.rows(),
    {
    }

    /// Regions of distinct OLMCs are disjoint and ordered: an earlier
    /// OLMC's region ends at or before a later one's begins.
    pub proof fn lemma_regions_ordered(self, i: int, j: int)
        requires
            0 <= i < j < self.olmcs(),
        ensures
            self.olmc_start(i) + self.olmc_size(i) <= self.olmc_start(j),
    {
    }
}

} // verus!
