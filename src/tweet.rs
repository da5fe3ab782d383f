//! Post records and the handler that fills a freshly allocated one.
use anchor_lang::prelude::Pubkey;
use vstd::prelude::*;
use vstd::string::StrSliceExecFns;

use crate::layout::{MAX_CONTENT_CHARS, MAX_TOPIC_CHARS};

verus! {

/// Declares anchor_lang's `Pubkey` (solana_program's 32-byte public key) as an
/// opaque type: a post's author is only moved into the record, never read.
#[verifier::external_type_specification]
#[verifier::external_body]
pub struct ExPubkey(Pubkey);

/// A post record. Once filled it is never changed by this library.
#[derive(Debug, PartialEq)]
pub struct Tweet {
    pub author: Pubkey,
    pub timestamp: i64,
    pub topic: String,
    pub content: String,
}

/// Why a post was refused.
#[derive(Clone, Copy, Debug, PartialEq, Eq, Structural)]
pub enum ErrorCode {
    /// The topic has more characters than a record allows.
    TopicTooLong,
    /// The content has more characters than a record allows.
    ContentTooLong,
}

/// `t` holds exactly the given author, timestamp, topic and content.
pub open spec fn holds_post(
    t: Tweet,
    author: Pubkey,
    timestamp: i64,
    topic: Seq<char>,
    content: Seq<char>,
) -> bool {
    &&& t.author == author
    &&& t.timestamp == timestamp
    &&& t.topic@ == topic
    &&& t.content@ == content
}

/// Fills the record `tweet` with a post by the signer `author`, stamped with
/// the clock reading `timestamp`. The text fields are checked before anything
/// is written, the topic first, so a post with both fields too long is refused
/// for its topic; on a refusal the record is left exactly as it was.
pub fn send_tweet(
    tweet: &mut Tweet,
    author: Pubkey,
    timestamp: i64,
    topic: String,
    content: String,
) -> (r: Result<(), ErrorCode>)
    ensures
        topic@.len() > MAX_TOPIC_CHARS ==> {
            &&& r == Err::<(), ErrorCode>(ErrorCode::TopicTooLong)
            &&& *final(tweet) == *old(tweet)
        },
        topic@.len() <= MAX_TOPIC_CHARS && content@.len() > MAX_CONTENT_CHARS ==> {
            &&& r == Err::<(), ErrorCode>(ErrorCode::ContentTooLong)
            &&& *final(tweet) == *old(tweet)
        },
        topic@.len() <= MAX_TOPIC_CHARS && content@.len() <= MAX_CONTENT_CHARS ==> {
            &&& r == Ok::<(), ErrorCode>(())
            &&& holds_post(*final(tweet), author, timestamp, topic@, content@)
        },
{
    if topic.as_str().unicode_len() > MAX_TOPIC_CHARS {
        return Err(ErrorCode::TopicTooLong);
    }
    if content.as_str().unicode_len() > MAX_CONTENT_CHARS {
        return Err(ErrorCode::ContentTooLong);
    }
    tweet.author = author;
    tweet.timestamp = timestamp;
    tweet.topic = topic;
    tweet.content = content;
    Ok(())
}

} // verus!
