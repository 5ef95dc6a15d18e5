//! The operating systems the application tells apart.

use vstd::prelude::*;

verus! {

/// The operating system the application runs on, as far as its behaviour depends on it.
#[derive(PartialEq, Eq, Structural, Debug, Clone, Copy)]
pub enum TargetOs {
    Windows,
    MacOs,
    Linux,
    /// Any other system.
    Other,
}

} // verus!
