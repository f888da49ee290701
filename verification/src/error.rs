//! Why a post is turned away.

use vstd::prelude::*;

verus! {

/// The two ways in which a post can be rejected. Either one ends the
/// operation before anything is written.
#[derive(Debug, Clone, Copy, PartialEq, Eq, Structural)]
pub enum ErrorCode {
    /// The topic has more than [`crate::tweet::MAX_TOPIC_CHARS`] characters.
    TopicTooLong,
    /// The content has more than [`crate::tweet::MAX_CONTENT_CHARS`] characters.
    ContentTooLong,
}

} // verus!
