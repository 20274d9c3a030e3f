//! The closed set of failures link resolution can raise.

use vstd::prelude::*;

verus! {

/// A failure while resolving or rendering a cross-document link.
///
/// `RedirectedLink` is a strict-mode policy violation and is always
/// surfaced to the caller. `IOError` stands for an infrastructure failure
/// in the underlying page store and is always propagated. `PageNotFound`
/// covers every other resolution failure — a content-authoring gap — and is
/// the one kind the link renderer recovers from locally.
#[derive(Debug)]
pub enum DocError {
    /// A reference resolved through a redirect while the build forbids that.
    RedirectedLink { from: String, to: String },
    /// The page store failed for an infrastructure reason.
    IOError,
    /// The page the reference points at does not exist.
    PageNotFound,
}

} // verus!
