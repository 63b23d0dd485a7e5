use tweet_store::handlers::handle_tweets;
use tweet_store::handlers::like_tweet;
use tweet_store::handlers::post_tweet;
use tweet_store::LikeError;
use tweet_store::TweetRequest;
use tweet_store::TweetStore;

#[test]
fn end_to_end_flow() {
    let mut state = TweetStore::new();
    assert!(handle_tweets(&state).is_empty());

    let created = post_tweet(
        &mut state,
        TweetRequest { author: String::from("zig"), message: String::from("Hello, world!") },
    );
    assert!(!created.id.is_empty());
    assert_eq!(created.author, "zig");
    assert_eq!(created.message, "Hello, world!");
    assert_eq!(created.likes, 0);

    let all = handle_tweets(&state);
    assert_eq!(all.len(), 1);
    assert_eq!(all[0].id, created.id);
    assert_eq!(all[0].author, "zig");
    assert_eq!(all[0].message, "Hello, world!");
    assert_eq!(all[0].created_at, created.created_at);
    assert_eq!(all[0].likes, 0);

    let liked = like_tweet(&mut state, created.id.clone()).expect("record exists");
    assert_eq!(liked.id, created.id);
    assert_eq!(liked.author, "zig");
    assert_eq!(liked.message, "Hello, world!");
    assert_eq!(liked.likes, 1);

    let err = like_tweet(&mut state, String::from("abc")).expect_err("no such record");
    let code = err.status_code();
    let body = err.error_body();
    assert_eq!(code, 404);
    assert_eq!(body.id, "abc");
    assert_eq!(body.err, "Tweet not found");
}

#[test]
fn post_tweet_keeps_arrival_order() {
    let mut state = TweetStore::new();
    post_tweet(
        &mut state,
        TweetRequest { author: String::from("first"), message: String::from("m1") },
    );
    post_tweet(
        &mut state,
        TweetRequest { author: String::from("second"), message: String::from("m2") },
    );
    let all = handle_tweets(&state);
    assert_eq!(all.len(), 2);
    assert_eq!(all[0].author, "first");
    assert_eq!(all[1].author, "second");
}

#[test]
fn like_error_carries_requested_id() {
    let mut state = TweetStore::new();
    let err = like_tweet(&mut state, String::from("nonexistent-id")).expect_err("empty store");
    match &err {
        LikeError::NotFound { id } => assert_eq!(id.as_str(), "nonexistent-id"),
        LikeError::CounterFull { .. } => panic!("wrong error kind"),
    }
    let body = err.error_body();
    assert_eq!(body.id, "nonexistent-id");
    assert_eq!(body.err, "Tweet not found");
}

#[test]
fn full_counter_maps_to_conflict() {
    let mut state = TweetStore::new();
    let created = post_tweet(
        &mut state,
        TweetRequest { author: String::from("a"), message: String::from("m") },
    );
    for _ in 0..255 {
        like_tweet(&mut state, created.id.clone()).expect("record exists");
    }
    let err = like_tweet(&mut state, created.id.clone()).expect_err("counter full");
    assert_eq!(err.status_code(), 409);
    let body = err.error_body();
    assert_eq!(body.id, created.id);
    assert_eq!(body.err, "Like counter at maximum");
    assert_eq!(handle_tweets(&state)[0].likes, 255);
}
