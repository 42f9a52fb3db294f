//! Errors of a disc session. Each one ends the extraction worker's loop.
use vstd::prelude::*;

verus! {

#[derive(Clone, Copy, Debug, PartialEq, Eq, Structural)]
pub enum CdError {
    /// The drive reports no valid first or last track.
    InvalidDisc,
    /// The table of contents does not describe the tracks it claims.
    InvalidToc,
    /// A track's sector range is reversed or too long for its container.
    InvalidRange,
    /// A track outside the disc's table was requested.
    NoSuchTrack,
}

impl CdError {
    /// A short description for logs.
    pub fn message(&self) -> (r: &'static str) {
        match self {
            CdError::InvalidDisc => "invalid CD",
            CdError::InvalidToc => "error reading cd",
            CdError::InvalidRange => "invalid track range",
            CdError::NoSuchTrack => "no such track",
        }
    }
}

} // verus!
