//! The stored record of one post and the byte budget reserved for it.

use anchor_lang::prelude::Pubkey;
use vstd::prelude::*;
use vstd::utf8::encode_utf8;

verus! {

/// The account address type of the host ledger, `anchor_lang::prelude::Pubkey`:
/// thirty-two bytes. The record only carries such a value from the signer to
/// storage, so nothing is claimed about what is inside it.
#[verifier::external_type_specification]
#[verifier::external_body]
pub struct ExPubkey(Pubkey);

/// Most characters a topic may have.
pub const MAX_TOPIC_CHARS: usize = 50;

/// Most characters a content may have.
pub const MAX_CONTENT_CHARS: usize = 280;

/// Bytes of the tag that the host puts in front of every stored record.
pub const DISCRIMINATOR_LENGTH: usize = 8;

/// Bytes of an account address.
pub const PUBLIC_KEY_LENGTH: usize = 32;

/// Bytes of a timestamp.
pub const TIMESTAMP_LENGTH: usize = 8;

/// Bytes of the length that is stored in front of a string.
pub const STRING_LENGTH_PREFIX: usize = 4;

/// Most bytes that one character takes in UTF-8.
pub const MAX_BYTES_PER_CHAR: usize = 4;

/// Bytes reserved for the text of a topic.
pub const MAX_TOPIC_LENGTH: usize = MAX_TOPIC_CHARS * MAX_BYTES_PER_CHAR;

/// Bytes reserved for the text of a content.
pub const MAX_CONTENT_LENGTH: usize = MAX_CONTENT_CHARS * MAX_BYTES_PER_CHAR;

/// One post as it is stored: who wrote it, when, under which topic, and what
/// it says.
#[derive(Debug, PartialEq, Eq)]
pub struct Tweet {
    pub author: Pubkey,
    pub timestamp: i64,
    pub topic: String,
    pub content: String,
}

impl Tweet {
    /// Bytes reserved for one stored record: tag, author, timestamp, and the
    /// two strings, each with its length prefix and at its longest.
    pub const LEN: usize = DISCRIMINATOR_LENGTH + PUBLIC_KEY_LENGTH + TIMESTAMP_LENGTH
        + STRING_LENGTH_PREFIX + MAX_TOPIC_LENGTH + STRING_LENGTH_PREFIX + MAX_CONTENT_LENGTH;

    /// Both strings are within their character limits.
    pub open spec fn within_limits(&self) -> bool {
        &&& self.topic@.len() <= MAX_TOPIC_CHARS
        &&& self.content@.len() <= MAX_CONTENT_CHARS
    }

    /// Bytes that this record takes when stored: the fixed parts, and each
    /// string as its length prefix followed by its UTF-8 encoding.
    pub open spec fn stored_len(&self) -> nat {
        (DISCRIMINATOR_LENGTH + PUBLIC_KEY_LENGTH + TIMESTAMP_LENGTH
            + STRING_LENGTH_PREFIX + encode_utf8(self.topic@).len()
            + STRING_LENGTH_PREFIX + encode_utf8(self.content@).len()) as nat
    }
}

/// UTF-8 spends at most [`MAX_BYTES_PER_CHAR`] bytes on each character, so a
/// text never takes more than that many bytes per character it holds.
pub proof fn lemma_utf8_len_bound(chars: Seq<char>)
    ensures
        encode_utf8(chars).len() <= MAX_BYTES_PER_CHAR * chars.len(),
    decreases chars.len(),
{
    if chars.len() > 0 {
        lemma_utf8_len_bound(chars.drop_first());
    }
}

/// The reserved space in figures: 8 + 32 + 8 + (4 + 200) + (4 + 1120) bytes.
pub proof fn lemma_reserved_space()
    ensures
        MAX_TOPIC_LENGTH == 200,
        MAX_CONTENT_LENGTH == 1120,
        Tweet::LEN == 1376,
{
}

/// A record whose strings are within their limits fits the reserved space,
/// whatever characters the strings hold.
pub proof fn lemma_record_fits(tweet: Tweet)
    requires
        tweet.within_limits(),
    ensures
        tweet.stored_len() <= Tweet::LEN,
{
    lemma_utf8_len_bound(tweet.topic@);
    lemma_utf8_len_bound(tweet.content@);
}

} // verus!
