//! The one operation of the program: check a post's lengths and write it into
//! the record that the host has set aside for it.

use anchor_lang::prelude::Pubkey;
use vstd::prelude::*;

use crate::error::ErrorCode;
use crate::tweet::{lemma_record_fits, Tweet, MAX_CONTENT_CHARS, MAX_TOPIC_CHARS};

verus! {

/// Applies the length rules in their order, topic first, and names the first
/// one broken. Lengths are counted in characters, not in bytes.
pub fn check_lengths(topic: &str, content: &str) -> (r: Result<(), ErrorCode>)
    ensures
        topic@.len() > MAX_TOPIC_CHARS
            ==> r == Err::<(), ErrorCode>(ErrorCode::TopicTooLong),
        topic@.len() <= MAX_TOPIC_CHARS && content@.len() > MAX_CONTENT_CHARS
            ==> r == Err::<(), ErrorCode>(ErrorCode::ContentTooLong),
        topic@.len() <= MAX_TOPIC_CHARS && content@.len() <= MAX_CONTENT_CHARS
            ==> r == Ok::<(), ErrorCode>(()),
{
    if topic.unicode_len() > MAX_TOPIC_CHARS {
        return Err(ErrorCode::TopicTooLong);
    }
    if content.unicode_len() > MAX_CONTENT_CHARS {
        return Err(ErrorCode::ContentTooLong);
    }
    Ok(())
}

/// What the host hands to [`send_tweet`]: the record set aside for the new
/// post, and the address of the signer who pays for it and is its author.
#[derive(Debug, PartialEq, Eq)]
pub struct SendTweet {
    pub tweet: Tweet,
    pub author: Pubkey,
}

/// Stores a post. Where both strings are within their limits, the record
/// becomes exactly the signer, the given time, the topic and the content, and
/// it fits the space reserved for it; where one string is too long, the error
/// names the first rule broken and nothing is written.
pub fn send_tweet(
    ctx: &mut SendTweet,
    topic: String,
    content: String,
    unix_timestamp: i64,
) -> (r: Result<(), ErrorCode>)
    ensures
        topic@.len() > MAX_TOPIC_CHARS
            ==> r == Err::<(), ErrorCode>(ErrorCode::TopicTooLong),
        topic@.len() <= MAX_TOPIC_CHARS && content@.len() > MAX_CONTENT_CHARS
            ==> r == Err::<(), ErrorCode>(ErrorCode::ContentTooLong),
        topic@.len() <= MAX_TOPIC_CHARS && content@.len() <= MAX_CONTENT_CHARS
            ==> r == Ok::<(), ErrorCode>(()),
        r is Ok ==> *final(ctx) == (SendTweet {
            tweet: Tweet { author: old(ctx).author, timestamp: unix_timestamp, topic, content },
            author: old(ctx).author,
        }),
        r is Ok ==> final(ctx).tweet.within_limits(),
        r is Ok ==> final(ctx).tweet.stored_len() <= Tweet::LEN,
        r is Err ==> *final(ctx) == *old(ctx),
{
    check_lengths(topic.as_str(), content.as_str())?;
    ctx.tweet.author = ctx.author;
    ctx.tweet.timestamp = unix_timestamp;
    ctx.tweet.topic = topic;
    ctx.tweet.content = content;
    proof {
        lemma_record_fits(ctx.tweet);
    }
    Ok(())
}

} // verus!
