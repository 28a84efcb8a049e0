//! The quirks modes of a document.

use vstd::prelude::*;

verus! {

/// How far a document follows the standards, as decided by its doctype.
#[derive(PartialEq, Eq, Structural, Debug, Copy, Clone)]
pub enum QuirksMode {
    Quirks,
    LimitedQuirks,
    NoQuirks,
}

} // verus!
