use post_store::{
    authorize, delete_post, post_space, send_post, update_post, validate, DeletePost, ErrorCode,
    PostAccount, Pubkey, SendPost, Signer, UpdatePost, MAX_CHARS, POST_LEN,
};

const RENT: u64 = 4_000_000;

fn key(b: u8) -> Pubkey {
    Pubkey::new([b; 32])
}

fn signer(b: u8, lamports: u64) -> Signer {
    Signer { key: key(b), lamports }
}

fn create(author: u8, topic: &str, content: &str, now: i64) -> PostAccount {
    let mut ctx = SendPost { post: PostAccount::empty(), author: signer(author, 10 * RENT) };
    assert_eq!(send_post(&mut ctx, topic.to_string(), content.to_string(), now, RENT), Ok(()));
    ctx.post
}

#[test]
fn layout_is_fixed_456_bytes() {
    assert_eq!(post_space(), 456);
    assert_eq!(POST_LEN, 456);
    assert_eq!(MAX_CHARS, 50);
}

#[test]
fn scenario_create_update_reject_delete() {
    let mut send = SendPost { post: PostAccount::empty(), author: signer(1, 10 * RENT) };
    let r = send_post(&mut send, "hello".to_string(), "world".to_string(), 1_700_000_000, RENT);
    assert_eq!(r, Ok(()));
    {
        let p = send.post.data.as_ref().unwrap();
        assert!(p.author == key(1));
        assert_eq!(p.timestamp, 1_700_000_000);
        assert_eq!(p.topic, "hello");
        assert_eq!(p.content, "world");
    }
    assert_eq!(send.author.lamports, 9 * RENT);
    assert_eq!(send.post.lamports, RENT);
    assert_eq!(send.post.space, 456);

    let mut upd = UpdatePost { post: send.post, author: signer(1, 0) };
    assert_eq!(update_post(&mut upd, "bye".to_string(), "world".to_string()), Ok(()));
    {
        let p = upd.post.data.as_ref().unwrap();
        assert_eq!(p.topic, "bye");
        assert_eq!(p.content, "world");
        assert!(p.author == key(1));
        assert_eq!(p.timestamp, 1_700_000_000);
    }

    let mut other = UpdatePost { post: upd.post, author: signer(2, 0) };
    assert_eq!(
        update_post(&mut other, "x".to_string(), "y".to_string()),
        Err(ErrorCode::AuthorizationFailure)
    );
    assert_eq!(other.post.data.as_ref().unwrap().topic, "bye");

    let mut del = DeletePost { post: other.post, author: signer(1, 9 * RENT) };
    assert_eq!(delete_post(&mut del), Ok(()));
    assert!(!del.post.is_active());
    assert!(del.post.data.is_none());
    assert_eq!(del.author.lamports, 10 * RENT);
    assert_eq!(del.post.lamports, 0);
    assert_eq!(del.post.space, 0);
}

#[test]
fn topic_of_fifty_chars_succeeds_fifty_one_fails() {
    let fifty = "a".repeat(50);
    let fifty_one = "a".repeat(51);
    let mut ok = SendPost { post: PostAccount::empty(), author: signer(1, RENT) };
    assert_eq!(send_post(&mut ok, fifty, "c".to_string(), 5, RENT), Ok(()));
    let mut bad = SendPost { post: PostAccount::empty(), author: signer(1, RENT) };
    assert_eq!(
        send_post(&mut bad, fifty_one, "c".to_string(), 5, RENT),
        Err(ErrorCode::TopicTooLong)
    );
    assert!(bad.post.data.is_none());
    assert_eq!(bad.author.lamports, RENT);
}

#[test]
fn content_of_fifty_chars_succeeds_fifty_one_fails() {
    let mut ok = SendPost { post: PostAccount::empty(), author: signer(1, RENT) };
    assert_eq!(send_post(&mut ok, "t".to_string(), "b".repeat(50), 5, RENT), Ok(()));
    let mut bad = SendPost { post: PostAccount::empty(), author: signer(1, RENT) };
    assert_eq!(
        send_post(&mut bad, "t".to_string(), "b".repeat(51), 5, RENT),
        Err(ErrorCode::ContentTooLong)
    );
    assert!(bad.post.data.is_none());
}

#[test]
fn length_counts_scalar_values_not_bytes() {
    // Fifty four-byte scalar values: 200 bytes, still within bounds.
    let wide = "\u{1F600}".repeat(50);
    assert_eq!(wide.len(), 200);
    let mut ok = SendPost { post: PostAccount::empty(), author: signer(1, RENT) };
    assert_eq!(send_post(&mut ok, wide.clone(), wide, 5, RENT), Ok(()));
    let wider = "\u{e9}".repeat(51);
    assert_eq!(validate(&wider, &"x".to_string()), Err(ErrorCode::TopicTooLong));
    let short = "\u{e9}".repeat(30);
    assert_eq!(short.len(), 60);
    assert_eq!(validate(&short, &short), Ok(()));
}

#[test]
fn create_round_trips_text() {
    let post = create(3, "", "some content, with punctuation!", -4);
    let p = post.data.as_ref().unwrap();
    assert_eq!(p.topic, "");
    assert_eq!(p.content, "some content, with punctuation!");
    assert_eq!(p.timestamp, -4);
    assert!(p.author == key(3));
}

#[test]
fn both_too_long_reports_topic_first() {
    let long = "z".repeat(60);
    assert_eq!(validate(&long, &long), Err(ErrorCode::TopicTooLong));
    assert_eq!(validate(&"ok".to_string(), &long), Err(ErrorCode::ContentTooLong));
}

#[test]
fn update_with_too_long_text_changes_nothing() {
    let post = create(1, "topic", "content", 9);
    let mut upd = UpdatePost { post, author: signer(1, 0) };
    assert_eq!(
        update_post(&mut upd, "t".repeat(51), "c".to_string()),
        Err(ErrorCode::TopicTooLong)
    );
    assert_eq!(
        update_post(&mut upd, "t".to_string(), "c".repeat(51)),
        Err(ErrorCode::ContentTooLong)
    );
    let p = upd.post.data.as_ref().unwrap();
    assert_eq!(p.topic, "topic");
    assert_eq!(p.content, "content");
    assert_eq!(p.timestamp, 9);
}

#[test]
fn update_by_stranger_changes_nothing() {
    let post = create(1, "topic", "content", 9);
    let mut upd = UpdatePost { post, author: signer(2, 0) };
    assert_eq!(
        update_post(&mut upd, "new".to_string(), "new".to_string()),
        Err(ErrorCode::AuthorizationFailure)
    );
    let p = upd.post.data.as_ref().unwrap();
    assert_eq!(p.topic, "topic");
    assert_eq!(p.content, "content");
    assert!(p.author == key(1));
    assert_eq!(p.timestamp, 9);
}

#[test]
fn stranger_is_refused_before_length_check() {
    let post = create(1, "topic", "content", 9);
    let mut upd = UpdatePost { post, author: signer(2, 0) };
    assert_eq!(
        update_post(&mut upd, "t".repeat(80), "c".to_string()),
        Err(ErrorCode::AuthorizationFailure)
    );
}

#[test]
fn delete_by_stranger_keeps_post() {
    let post = create(1, "topic", "content", 9);
    let mut del = DeletePost { post, author: signer(2, 7) };
    assert_eq!(delete_post(&mut del), Err(ErrorCode::AuthorizationFailure));
    assert!(del.post.is_active());
    assert_eq!(del.post.lamports, RENT);
    assert_eq!(del.author.lamports, 7);
}

#[test]
fn operations_after_delete_find_nothing() {
    let post = create(1, "topic", "content", 9);
    let mut del = DeletePost { post, author: signer(1, 0) };
    assert_eq!(delete_post(&mut del), Ok(()));
    assert_eq!(del.author.lamports, RENT);
    let mut upd = UpdatePost { post: del.post, author: signer(1, 0) };
    assert_eq!(
        update_post(&mut upd, "a".to_string(), "b".to_string()),
        Err(ErrorCode::PostNotFound)
    );
    let mut again = DeletePost { post: upd.post, author: signer(1, 0) };
    assert_eq!(delete_post(&mut again), Err(ErrorCode::PostNotFound));
}

#[test]
fn create_in_taken_slot_fails() {
    let post = create(1, "first", "post", 9);
    let mut ctx = SendPost { post, author: signer(2, RENT) };
    assert_eq!(
        send_post(&mut ctx, "second".to_string(), "post".to_string(), 10, RENT),
        Err(ErrorCode::AllocationFailure)
    );
    assert_eq!(ctx.post.data.as_ref().unwrap().topic, "first");
    assert_eq!(ctx.author.lamports, RENT);
}

#[test]
fn create_without_funds_fails() {
    let mut ctx = SendPost { post: PostAccount::empty(), author: signer(1, RENT - 1) };
    assert_eq!(
        send_post(&mut ctx, "t".to_string(), "c".to_string(), 10, RENT),
        Err(ErrorCode::AllocationFailure)
    );
    assert!(ctx.post.data.is_none());
    assert_eq!(ctx.author.lamports, RENT - 1);
}

#[test]
fn validation_error_precedes_allocation_error() {
    let mut ctx = SendPost { post: PostAccount::empty(), author: signer(1, 0) };
    assert_eq!(
        send_post(&mut ctx, "t".repeat(51), "c".to_string(), 10, RENT),
        Err(ErrorCode::TopicTooLong)
    );
}

#[test]
fn authorize_compares_every_byte() {
    let a = key(4);
    let mut bytes = [4u8; 32];
    bytes[31] = 5;
    let b = Pubkey::new(bytes);
    assert_eq!(authorize(&a, &a), Ok(()));
    assert_eq!(authorize(&a, &b), Err(ErrorCode::AuthorizationFailure));
    assert!(a != b);
    assert!(a == Pubkey::new([4u8; 32]));
    assert_eq!(b.to_bytes(), bytes);
}

#[test]
fn error_messages() {
    assert_eq!(
        ErrorCode::TopicTooLong.message(),
        "The provided caption should be 50 characters long maximum."
    );
    assert_eq!(
        ErrorCode::ContentTooLong.message(),
        "The provided content should be 50 characters long maximum."
    );
    assert_eq!(
        ErrorCode::AuthorizationFailure.message(),
        "The signer is not the author of this post."
    );
    assert_eq!(
        ErrorCode::AllocationFailure.message(),
        "Storage for the post could not be reserved."
    );
    assert_eq!(ErrorCode::PostNotFound.message(), "No post is stored here.");
}
