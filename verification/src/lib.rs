//! Verified core of a "send tweet" program: the length rules for a post, the
//! record a post is stored as, and the byte budget reserved for that record.

pub mod error;
pub mod instruction;
pub mod tweet;

pub use error::ErrorCode;
pub use instruction::{check_lengths, send_tweet, SendTweet};
pub use tweet::Tweet;
