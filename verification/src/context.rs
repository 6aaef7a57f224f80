//! The mode of the document that a stylesheet belongs to.

use vstd::prelude::*;

verus! {

/// The quirks mode of the document, which makes some productions more lenient.
#[derive(Clone, Copy, Debug, PartialEq, Eq, Hash, Structural)]
pub enum QuirksMode {
    /// Quirks mode.
    Quirks,
    /// Limited quirks mode.
    LimitedQuirks,
    /// No quirks mode.
    NoQuirks,
}

} // verus!
