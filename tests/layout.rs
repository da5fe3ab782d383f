use solana_twitter::{record_space, MAX_CONTENT_CHARS, MAX_TOPIC_CHARS, TWEET_LEN};

#[test]
fn record_capacity_is_fixed() {
    assert_eq!(TWEET_LEN, 1376);
    assert_eq!(record_space(MAX_TOPIC_CHARS, MAX_CONTENT_CHARS), TWEET_LEN);
    assert_eq!(record_space(50, 280), record_space(50, 280));
}

#[test]
fn capacity_of_empty_text_fields() {
    assert_eq!(record_space(0, 0), 8 + 32 + 8 + 4 + 4);
}

#[test]
fn capacity_grows_four_bytes_per_character() {
    assert_eq!(record_space(1, 0), 60);
    assert_eq!(record_space(0, 1), 60);
    assert_eq!(record_space(10, 20), 56 + 40 + 80);
}
