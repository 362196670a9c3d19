//! The coarse error type of the driver's setup and submission entry
//! points. Node collaborators surface their own error taxonomies only as
//! opaque text; process setup failures carry an exit code.

use vstd::prelude::*;

verus! {

/// An error surfaced by the driver to its embedder.
#[derive(Debug, Clone, PartialEq, Eq)]
pub enum Error {
    /// An error reported by a node collaborator, as text.
    CKB(String),
    /// A setup failure with the process exit code it maps to.
    Exit(i32),
    /// Any other failure, as text.
    Other(String),
}

} // verus!
