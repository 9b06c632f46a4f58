//! The error classes the pager core surfaces to its caller.

use vstd::prelude::*;

verus! {

/// What went wrong, by class: an I/O failure (file or terminal control), a
/// text-formatting failure reported by the terminal layer, or anything
/// residual. The caller maps each class to its exit code; the payload of the
/// underlying report stays with the unverified layer that produced it.
#[derive(Clone, Copy, PartialEq, Eq, Structural, Debug)]
pub enum ErrorKind {
    Io,
    Fmt,
    Unknown,
}

} // verus!
