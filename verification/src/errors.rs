//! Errors surfaced by the fuse-map synthesizer. Each carries the source
//! line of the offending term, when known.

use vstd::prelude::*;

verus! {

/// What went wrong during a build.
#[derive(Clone, Copy, Debug, PartialEq, Eq, Structural)]
pub enum ErrorCode {
    /// A term's row count exceeds its allocated range.
    TooManyProductTerms,
    /// A per-OLMC clock term was used on a chip other than the GAL20RA10.
    DisallowedCLK,
    /// A per-OLMC async reset term was used on a chip other than the GAL20RA10.
    DisallowedARST,
    /// A per-OLMC async preset term was used on a chip other than the GAL20RA10.
    DisallowedAPRST,
    /// A GAL20RA10 registered output lacks a clock term.
    NoCLK,
}

/// An error code together with the source line it was raised at.
#[derive(Clone, Copy, Debug, PartialEq, Eq, Structural)]
pub struct Error {
    pub code: ErrorCode,
    pub line: u32,
}

/// Attach a line number to the error of a raw result.
pub fn at_line<T>(line: u32, res: Result<T, ErrorCode>) -> (r: Result<T, Error>)
    ensures
        res matches Ok(v) ==> r matches Ok(w) && w == v,
        res matches Err(c) ==> r matches Err(e) && e == (Error { code: c, line }),
{
    match res {
        Ok(v) => Ok(v),
        Err(code) => Err(Error { code, line }),
    }
}

} // verus!
