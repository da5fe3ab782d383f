//! Byte layout of a stored post record.
use vstd::prelude::*;

verus! {

/// Bytes of the type tag that prefixes every stored record.
pub const DISCRIMINATOR_LENGTH: usize = 8;

/// Bytes of the author's public key.
pub const PUBLIC_KEY_LENGTH: usize = 32;

/// Bytes of the signed 64-bit timestamp.
pub const TIMESTAMP_LENGTH: usize = 8;

/// Bytes of the length prefix stored before each text field.
pub const STRING_LENGTH_PREFIX: usize = 4;

/// Worst-case bytes of one character in the stored text encoding.
pub const MAX_BYTES_PER_CHAR: usize = 4;

/// Largest number of characters a topic may hold.
pub const MAX_TOPIC_CHARS: usize = 50;

/// Largest number of characters a content body may hold.
pub const MAX_CONTENT_CHARS: usize = 280;

/// Worst-case bytes of a topic's text.
pub const MAX_TOPIC_LENGTH: usize = MAX_TOPIC_CHARS * MAX_BYTES_PER_CHAR;

/// Worst-case bytes of a content body's text.
pub const MAX_CONTENT_LENGTH: usize = MAX_CONTENT_CHARS * MAX_BYTES_PER_CHAR;

/// Capacity reserved for every record: tag, key, timestamp and both text fields
/// at their largest.
pub const TWEET_LEN: usize = DISCRIMINATOR_LENGTH + PUBLIC_KEY_LENGTH + TIMESTAMP_LENGTH
    + STRING_LENGTH_PREFIX + MAX_TOPIC_LENGTH + STRING_LENGTH_PREFIX + MAX_CONTENT_LENGTH;

/// Bytes a record needs when its topic holds at most `topic_chars` characters
/// and its content at most `content_chars`.
pub open spec fn account_space(topic_chars: nat, content_chars: nat) -> nat {
    (DISCRIMINATOR_LENGTH + PUBLIC_KEY_LENGTH + TIMESTAMP_LENGTH + (STRING_LENGTH_PREFIX
        + topic_chars * MAX_BYTES_PER_CHAR) + (STRING_LENGTH_PREFIX + content_chars
        * MAX_BYTES_PER_CHAR)) as nat
}

/// Computes the capacity of a record whose text fields are bounded by the
/// given character counts.
pub fn record_space(max_topic_chars: usize, max_content_chars: usize) -> (r: usize)
    requires
        account_space(max_topic_chars as nat, max_content_chars as nat) <= usize::MAX,
    ensures
        r as nat == account_space(max_topic_chars as nat, max_content_chars as nat),
{
    let topic_bytes: usize = max_topic_chars * MAX_BYTES_PER_CHAR;
    let content_bytes: usize = max_content_chars * MAX_BYTES_PER_CHAR;
    DISCRIMINATOR_LENGTH + PUBLIC_KEY_LENGTH + TIMESTAMP_LENGTH + (STRING_LENGTH_PREFIX
        + topic_bytes) + (STRING_LENGTH_PREFIX + content_bytes)
}

/// The capacity of a record is one fixed number: the one that the character
/// bounds of topic and content give, whatever call computes it.
pub proof fn lemma_tweet_len_is_fixed()
    ensures
        TWEET_LEN as nat == account_space(MAX_TOPIC_CHARS as nat, MAX_CONTENT_CHARS as nat),
        TWEET_LEN == 1376,
{
}

} // verus!
