//! A verified core for creating immutable, fixed-capacity post records.
mod layout;
mod tweet;

pub use layout::{
    account_space, lemma_tweet_len_is_fixed, record_space, DISCRIMINATOR_LENGTH,
    MAX_BYTES_PER_CHAR, MAX_CONTENT_CHARS, MAX_CONTENT_LENGTH, MAX_TOPIC_CHARS, MAX_TOPIC_LENGTH,
    PUBLIC_KEY_LENGTH, STRING_LENGTH_PREFIX, TIMESTAMP_LENGTH, TWEET_LEN,
};
pub use tweet::{holds_post, send_tweet, ErrorCode, Tweet};
