use std::fmt::Debug;

use buzzwords::comment::{
    get_post_comment, post_comment_like, post_new_comment, Comment, GetPostComment, NewComment,
    PostCommentLike, PostNewComment,
};
use buzzwords::dialogue::{CacheValue, Command, Failure, Handler, Kind, Next, Record, Reply, Status};
use buzzwords::notification::Notification;
use buzzwords::post::{Like, NewPost, Post};
use mongodb::bson::Document;
use time::{Date, Month, OffsetDateTime};

fn asks<S: Debug, A: Debug>(next: Next<S, A>) -> S {
    match next {
        Next::Ask(state) => state,
        other => panic!("no further command: {:?}", other),
    }
}

fn answers<S: Debug, A: Debug>(next: Next<S, A>) -> A {
    match next {
        Next::Respond(Ok(answer)) => answer,
        other => panic!("no answer: {:?}", other),
    }
}

fn fails<S: Debug, A: Debug>(next: Next<S, A>) -> Failure {
    match next {
        Next::Respond(Err(failure)) => failure,
        other => panic!("no failure: {:?}", other),
    }
}

fn broken() -> Reply {
    Reply::Failed("x".to_string())
}

fn day() -> Date {
    Date::from_calendar_date(2023, Month::March, 5).unwrap()
}

fn post() -> Post {
    let mut post = Post::publish(
        NewPost { title: "Notes".to_string(), content: "On the engine".to_string() },
        "ada".to_string(),
        day(),
    );
    post.comments.push("First".to_string());
    post
}

fn first() -> NewComment {
    NewComment {
        title: "First".to_string(),
        content: "Well put".to_string(),
        author: "bob".to_string(),
    }
}

fn comment(title: &str) -> Comment {
    let mut new_comment = first();
    new_comment.title = title.to_string();
    Comment::write("ada".to_string(), "Notes".to_string(), new_comment, day())
}

#[test]
fn written_comment_has_no_likers() {
    let comment = comment("First");
    assert_eq!(comment.post_author, "ada");
    assert_eq!(comment.post_title, "Notes");
    assert_eq!(comment.title, "First");
    assert_eq!(comment.content, "Well put");
    assert_eq!(comment.author, "bob");
    assert_eq!(comment.date_of_creation, day());
    assert!(comment.likers.is_empty());
    assert_eq!(format!("{:?}", comment.clone()), format!("{:?}", comment));
}

fn listing() -> GetPostComment {
    get_post_comment("ada".to_string(), "Notes".to_string())
}

fn listing_decodes() -> GetPostComment {
    asks(listing().resume(Reply::Cached(CacheValue::Data(vec![1]))))
}

fn listing_looks_up() -> GetPostComment {
    asks(listing().resume(Reply::Cached(CacheValue::Nil)))
}

fn listing_finds() -> GetPostComment {
    asks(listing_decodes().resume(Reply::Decoded(Record::Post(post()))))
}

fn listing_collects() -> GetPostComment {
    asks(listing_finds().resume(Reply::Done))
}

#[test]
fn comments_on_cached_post_come_in_order() {
    match listing().command() {
        Command::CacheGet { key } => assert_eq!(key, "ada/Notes"),
        other => panic!("{:?}", other),
    }
    match listing_decodes().command() {
        Command::DecodeJson { kind, bytes } => {
            assert_eq!(kind, Kind::Post);
            assert_eq!(bytes, [1]);
        }
        other => panic!("{:?}", other),
    }
    match listing_finds().command() {
        Command::Find { kind, collection, filter } => {
            let mut expected = Document::new();
            expected.insert("post_author", "ada");
            expected.insert("post_title", "Notes");
            assert_eq!(kind, Kind::Comment);
            assert_eq!(collection, "comment");
            assert_eq!(filter, expected);
        }
        other => panic!("{:?}", other),
    }
    let mut handler = listing_collects();
    for title in ["First", "Second", "Third"] {
        match handler.command() {
            Command::NextFound { kind } => assert_eq!(kind, Kind::Comment),
            other => panic!("{:?}", other),
        }
        handler = asks(handler.resume(Reply::Found(Some(Record::Comment(comment(title))))));
    }
    let comments = answers(handler.resume(Reply::Found(None)));
    let titles: Vec<&str> = comments.iter().map(|comment| comment.title.as_str()).collect();
    assert_eq!(titles, ["First", "Second", "Third"]);
}

#[test]
fn comments_on_stored_post_are_listed_too() {
    match listing_looks_up().command() {
        Command::FindOne { kind, collection, filter } => {
            let mut expected = Document::new();
            expected.insert("author", "ada");
            expected.insert("title", "Notes");
            assert_eq!(kind, Kind::Post);
            assert_eq!(collection, "post");
            assert_eq!(filter, expected);
        }
        other => panic!("{:?}", other),
    }
    let handler = asks(listing_looks_up().resume(Reply::Found(Some(Record::Post(post())))));
    let handler = asks(handler.resume(Reply::Done));
    assert!(answers(handler.resume(Reply::Found(None))).is_empty());
}

#[test]
fn comments_on_missing_post_are_not_found() {
    let failure = fails(listing_looks_up().resume(Reply::Found(None)));
    assert_eq!(failure.status, Status::NotFound);
    assert_eq!(failure.message, "post ada/Notes not found");
}

#[test]
fn each_failed_command_of_a_listing_is_reported() {
    assert_eq!(fails(listing().resume(broken())).message, "failed to get post from redis: x");
    assert_eq!(
        fails(listing().resume(Reply::Cached(CacheValue::Other))).message,
        "failed to get post from redis: wrong type"
    );
    assert_eq!(
        fails(listing_decodes().resume(broken())).message,
        "failed to get post from redis: error deserializing into post: x"
    );
    assert_eq!(fails(listing_looks_up().resume(broken())).message, "failed to find post: x");
    assert_eq!(fails(listing_finds().resume(broken())).message, "failed to find comments: x");
    let handler =
        asks(listing_collects().resume(Reply::Found(Some(Record::Comment(comment("First"))))));
    let failure = fails(handler.resume(broken()));
    assert_eq!(failure.message, "failed to get comment: x");
    assert_eq!(failure.status, Status::InternalServerError);
}

#[test]
fn listing_refuses_records_of_another_kind() {
    match listing_collects().resume(Reply::Found(Some(Record::Post(post())))) {
        Next::OutOfTurn(GetPostComment::NextComment { comments }) => assert!(comments.is_empty()),
        other => panic!("{:?}", other),
    }
}

fn at_update() -> PostNewComment {
    PostNewComment::begin("ada".to_string(), "Notes".to_string(), first(), day())
}

fn at_insert() -> PostNewComment {
    asks(at_update().resume(Reply::Found(Some(Record::Post(post())))))
}

fn at_channel() -> PostNewComment {
    asks(at_insert().resume(Reply::Done))
}

fn at_encode_news() -> PostNewComment {
    asks(at_channel().resume(Reply::Done))
}

fn at_publish() -> PostNewComment {
    asks(at_encode_news().resume(Reply::Encoded(vec![5])))
}

fn at_encode_post() -> PostNewComment {
    asks(at_publish().resume(Reply::Done))
}

fn at_cache() -> PostNewComment {
    asks(at_encode_post().resume(Reply::Encoded(vec![8])))
}

#[test]
fn comment_is_stored_announced_and_cached() {
    match at_update().command() {
        Command::FindOneAndUpdate { kind, collection, filter, update, return_updated } => {
            let mut expected_filter = Document::new();
            expected_filter.insert("author", "ada");
            expected_filter.insert("title", "Notes");
            let mut pushed = Document::new();
            pushed.insert("comments", "First");
            let mut expected_update = Document::new();
            expected_update.insert("$push", pushed);
            assert_eq!(kind, Kind::Post);
            assert_eq!(collection, "post");
            assert_eq!(filter, expected_filter);
            assert_eq!(update, expected_update);
            assert!(return_updated);
        }
        other => panic!("{:?}", other),
    }
    match at_insert().command() {
        Command::Insert { collection, record: Record::Comment(comment) } => {
            assert_eq!(collection, "comment");
            assert_eq!(comment.title, "First");
            assert_eq!(comment.post_author, "ada");
        }
        other => panic!("{:?}", other),
    }
    assert!(matches!(at_channel().command(), Command::OpenChannel));
    match at_encode_news().command() {
        Command::EncodeJson { record: Record::Notification(Notification::NewComment(news)) } => {
            assert_eq!(news.title, "First")
        }
        other => panic!("{:?}", other),
    }
    match at_publish().command() {
        Command::Publish { exchange, routing_key, payload } => {
            assert_eq!(exchange, "");
            assert_eq!(routing_key, "ada");
            assert_eq!(payload, [5]);
        }
        other => panic!("{:?}", other),
    }
    match at_encode_post().command() {
        Command::EncodeJson { record: Record::Post(post) } => {
            assert_eq!(post.comments, ["First"])
        }
        other => panic!("{:?}", other),
    }
    match at_cache().command() {
        Command::CacheSet { key, value } => {
            assert_eq!(key, "ada/Notes");
            assert_eq!(value, [8]);
        }
        other => panic!("{:?}", other),
    }
    let comment = answers(at_cache().resume(Reply::Done));
    assert_eq!(comment.title, "First");
    assert_eq!(comment.author, "bob");
}

#[test]
fn new_comment_is_dated_today() {
    let before = OffsetDateTime::now_utc().date();
    let handler = post_new_comment("ada".to_string(), "Notes".to_string(), first());
    let later = OffsetDateTime::now_utc().date();
    match asks(handler.resume(Reply::Found(None))).command() {
        Command::Insert { record: Record::Comment(comment), .. } => {
            assert!(before <= comment.date_of_creation && comment.date_of_creation <= later);
            assert_eq!(comment.post_author, "ada");
            assert_eq!(comment.post_title, "Notes");
        }
        other => panic!("{:?}", other),
    }
}

#[test]
fn comment_on_missing_post_is_refused_after_it_was_stored() {
    let handler = asks(at_update().resume(Reply::Found(None)));
    assert!(matches!(handler.command(), Command::Insert { collection: "comment", .. }));
    let failure = fails(handler.resume(Reply::Done));
    assert_eq!(failure.status, Status::BadRequest);
    assert_eq!(failure.message, "post ada/Notes not found");
}

#[test]
fn each_failed_command_of_a_comment_is_reported() {
    assert_eq!(
        fails(at_update().resume(broken())).message,
        "failed to insert comment into post: x"
    );
    assert_eq!(
        fails(at_insert().resume(Reply::NotEncoded("y".to_string()))).message,
        "failed to serialize comment: y"
    );
    assert_eq!(
        fails(at_insert().resume(broken())).message,
        "failed to insert comment into mongo: x"
    );
    assert_eq!(
        fails(at_channel().resume(broken())).message,
        "failed to create rabbitmq channel: x"
    );
    assert_eq!(
        fails(at_encode_news().resume(broken())).message,
        "failed to serialize notification: x"
    );
    assert_eq!(
        fails(at_publish().resume(broken())).message,
        "failed to publish notification: x"
    );
    assert_eq!(fails(at_encode_post().resume(broken())).message, "failed to serialize post: x");
    let failure = fails(at_cache().resume(broken()));
    assert_eq!(failure.message, "failed to insert post into redis cache: x");
    assert_eq!(failure.status, Status::InternalServerError);
}

fn at_like() -> PostCommentLike {
    post_comment_like(
        "ada".to_string(),
        "Notes".to_string(),
        "First".to_string(),
        Like { liker: "carol".to_string() },
    )
}

fn liked() -> Comment {
    let mut liked = comment("First");
    liked.likers.push("carol".to_string());
    liked
}

fn at_like_channel() -> PostCommentLike {
    asks(at_like().resume(Reply::Found(Some(Record::Comment(liked())))))
}

fn at_like_news() -> PostCommentLike {
    asks(at_like_channel().resume(Reply::Done))
}

fn at_like_publish() -> PostCommentLike {
    asks(at_like_news().resume(Reply::Encoded(vec![3])))
}

fn at_like_encode() -> PostCommentLike {
    asks(at_like_publish().resume(Reply::Done))
}

#[test]
fn comment_like_is_recorded_and_announced() {
    match at_like().command() {
        Command::FindOneAndUpdate { kind, collection, filter, update, return_updated } => {
            let mut expected_filter = Document::new();
            expected_filter.insert("post_title", "Notes");
            expected_filter.insert("post_author", "ada");
            expected_filter.insert("title", "First");
            let mut added = Document::new();
            added.insert("likers", "carol");
            let mut expected_update = Document::new();
            expected_update.insert("$addToSet", added);
            assert_eq!(kind, Kind::Comment);
            assert_eq!(collection, "comment");
            assert_eq!(filter, expected_filter);
            assert_eq!(update, expected_update);
            assert!(return_updated);
        }
        other => panic!("{:?}", other),
    }
    assert!(matches!(at_like_channel().command(), Command::OpenChannel));
    match at_like_news().command() {
        Command::EncodeJson {
            record: Record::Notification(Notification::NewCommentLike(news)),
        } => {
            assert_eq!(news.comment.title, "First");
            assert_eq!(news.comment.likers, ["carol"]);
            assert_eq!(news.liker, "carol");
        }
        other => panic!("{:?}", other),
    }
    match at_like_publish().command() {
        Command::Publish { exchange, routing_key, payload } => {
            assert_eq!(exchange, "");
            assert_eq!(routing_key, "bob");
            assert_eq!(payload, [3]);
        }
        other => panic!("{:?}", other),
    }
    match at_like_encode().command() {
        Command::EncodeJson { record: Record::Comment(comment) } => {
            assert_eq!(comment.likers, ["carol"])
        }
        other => panic!("{:?}", other),
    }
    let comment = answers(at_like_encode().resume(Reply::Encoded(vec![4])));
    assert_eq!(comment.likers, ["carol"]);
}

#[test]
fn like_of_missing_comment_is_not_found() {
    let failure = fails(at_like().resume(Reply::Found(None)));
    assert_eq!(failure.status, Status::NotFound);
    assert_eq!(failure.message, "comment ada/Notes/First not found");
}

#[test]
fn each_failed_command_of_a_comment_like_is_reported() {
    assert_eq!(fails(at_like().resume(broken())).message, "failed to like comment: x");
    assert_eq!(
        fails(at_like_channel().resume(broken())).message,
        "failed to create rabbitmq channel: x"
    );
    assert_eq!(
        fails(at_like_news().resume(broken())).message,
        "failed to serialize notification: x"
    );
    assert_eq!(
        fails(at_like_publish().resume(broken())).message,
        "failed to publish notification: x"
    );
    let failure = fails(at_like_encode().resume(broken()));
    assert_eq!(failure.message, "failed to serialize comment: x");
    assert_eq!(failure.status, Status::InternalServerError);
}
