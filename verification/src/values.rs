//! Values that the token cursor knows how to read by itself.

use vstd::prelude::*;

verus! {

/// One contiguous range of code points, both ends included.
///
/// A range is never empty; it holds a single code point when its ends are equal.
#[derive(Clone, Copy, Debug, PartialEq, Eq, Hash, Structural)]
pub struct UnicodeRange {
    /// The first code point of the range.
    pub start: u32,
    /// The last code point of the range.
    pub end: u32,
}

impl UnicodeRange {
    /// The ends are in order and within the code points that exist.
    pub open spec fn wf(&self) -> bool {
        self.start <= self.end && self.end <= 0x10FFFF
    }
}

/// The `/` delimiter, as a value that is parsed for its presence alone.
#[derive(Clone, Copy, Debug, PartialEq, Eq, Hash, Structural)]
pub struct SlashToken;

} // verus!
