use std::fmt::Debug;

use buzzwords::comment::get_post_comment;
use buzzwords::dialogue::{CacheValue, Command, Failure, Handler, Kind, Next, Record, Reply, Status};
use buzzwords::notification::Notification;
use buzzwords::post::{
    post_new_post, post_post_like, Like, NewPost, Post, PostNewPost, PostPostLike,
};
use buzzwords::redis::{Fault, FaultKind};
use buzzwords::user::{NewUser, User};
use mongodb::bson::{Bson, Document};
use time::{Date, Month, OffsetDateTime};

fn asks<S: Debug, A: Debug>(next: Next<S, A>) -> S {
    match next {
        Next::Ask(state) => state,
        other => panic!("no further command: {:?}", other),
    }
}

fn answers<S: Debug, A: Debug>(next: Next<S, A>) -> A {
    match next {
        Next::Respond(Ok(answer)) => answer,
        other => panic!("no answer: {:?}", other),
    }
}

fn fails<S: Debug, A: Debug>(next: Next<S, A>) -> Failure {
    match next {
        Next::Respond(Err(failure)) => failure,
        other => panic!("no failure: {:?}", other),
    }
}

fn broken() -> Reply {
    Reply::Failed("x".to_string())
}

fn day() -> Date {
    Date::from_calendar_date(2023, Month::March, 5).unwrap()
}

fn notes() -> NewPost {
    NewPost { title: "Notes".to_string(), content: "On the engine".to_string() }
}

fn author(followers: &[&str]) -> User {
    let mut user = User::register(
        NewUser {
            name: "Ada Lovelace".to_string(),
            username: "ada".to_string(),
            email: "ada@example.org".to_string(),
            password: "engine".to_string(),
        },
        day(),
    );
    user.posts.push("Notes".to_string());
    for follower in followers {
        user.followers.push(follower.to_string());
    }
    user
}

fn at_insert() -> PostNewPost {
    PostNewPost::begin("ada".to_string(), notes(), day())
}

fn at_update() -> PostNewPost {
    asks(at_insert().resume(Reply::Done))
}

fn at_encode_post(followers: &[&str]) -> PostNewPost {
    asks(at_update().resume(Reply::Found(Some(Record::User(author(followers))))))
}

fn at_cache_post(followers: &[&str]) -> PostNewPost {
    asks(at_encode_post(followers).resume(Reply::Encoded(vec![1])))
}

fn at_encode_user(followers: &[&str]) -> PostNewPost {
    asks(at_cache_post(followers).resume(Reply::Done))
}

fn at_cache_user(followers: &[&str]) -> PostNewPost {
    asks(at_encode_user(followers).resume(Reply::Encoded(vec![2])))
}

fn at_channel(followers: &[&str]) -> PostNewPost {
    asks(at_cache_user(followers).resume(Reply::Done))
}

fn at_encode_news(followers: &[&str]) -> PostNewPost {
    asks(at_channel(followers).resume(Reply::Done))
}

#[test]
fn published_post_starts_without_likes_and_comments() {
    let post = Post::publish(notes(), "ada".to_string(), day());
    assert_eq!(post.title, "Notes");
    assert_eq!(post.content, "On the engine");
    assert_eq!(post.author, "ada");
    assert_eq!(post.date_of_creation, day());
    assert!(post.likes.is_empty());
    assert!(post.comments.is_empty());
    let mut liked = post.clone();
    liked.likes.push("bob".to_string());
    liked.comments.push("First".to_string());
    assert_eq!(format!("{:?}", liked.clone()), format!("{:?}", liked));
}

#[test]
fn post_is_stored_cached_and_announced_in_order() {
    match at_insert().command() {
        Command::Insert { collection, record: Record::Post(post) } => {
            assert_eq!(collection, "post");
            assert_eq!(post.title, "Notes");
            assert_eq!(post.author, "ada");
        }
        other => panic!("{:?}", other),
    }
    match at_update().command() {
        Command::FindOneAndUpdate { kind, collection, filter, update, return_updated } => {
            let mut expected_filter = Document::new();
            expected_filter.insert("username", "ada");
            let mut pushed = Document::new();
            pushed.insert("posts", "Notes");
            let mut expected_update = Document::new();
            expected_update.insert("$push", pushed);
            assert_eq!(kind, Kind::User);
            assert_eq!(collection, "user");
            assert_eq!(filter, expected_filter);
            assert_eq!(update, expected_update);
            assert!(return_updated);
        }
        other => panic!("{:?}", other),
    }
    let followers = ["bob", "carol", "dan"];
    match at_encode_post(&followers).command() {
        Command::EncodeJson { record: Record::Post(post) } => assert_eq!(post.title, "Notes"),
        other => panic!("{:?}", other),
    }
    match at_cache_post(&followers).command() {
        Command::CacheSet { key, value } => {
            assert_eq!(key, "ada/Notes");
            assert_eq!(value, [1]);
        }
        other => panic!("{:?}", other),
    }
    match at_encode_user(&followers).command() {
        Command::EncodeJson { record: Record::User(user) } => assert_eq!(user.posts, ["Notes"]),
        other => panic!("{:?}", other),
    }
    match at_cache_user(&followers).command() {
        Command::CacheSet { key, value } => {
            assert_eq!(key, "ada");
            assert_eq!(value, [2]);
        }
        other => panic!("{:?}", other),
    }
    assert!(matches!(at_channel(&followers).command(), Command::OpenChannel));
    match at_encode_news(&followers).command() {
        Command::EncodeJson { record: Record::Notification(Notification::NewPost(post)) } => {
            assert_eq!(post.title, "Notes")
        }
        other => panic!("{:?}", other),
    }
    let mut next = at_encode_news(&followers).resume(Reply::Encoded(vec![7, 7]));
    for follower in followers {
        let declare = asks(next);
        match declare.command() {
            Command::DeclareQueue { queue } => assert_eq!(queue, follower),
            other => panic!("{:?}", other),
        }
        let publish = asks(declare.resume(Reply::Done));
        match publish.command() {
            Command::Publish { exchange, routing_key, payload } => {
                assert_eq!(exchange, "");
                assert_eq!(routing_key, follower);
                assert_eq!(payload, [7, 7]);
            }
            other => panic!("{:?}", other),
        }
        next = publish.resume(Reply::Done);
    }
    let post = answers(next);
    assert_eq!(post.title, "Notes");
    assert_eq!(post.author, "ada");
}

#[test]
fn post_without_followers_is_answered_at_once() {
    let post = answers(at_encode_news(&[]).resume(Reply::Encoded(vec![7])));
    assert_eq!(post.content, "On the engine");
}

#[test]
fn follower_listed_twice_is_told_twice() {
    let mut next = at_encode_news(&["bob", "bob"]).resume(Reply::Encoded(vec![7]));
    let mut told = 0;
    while let Next::Ask(handler) = next {
        if let Command::Publish { routing_key, .. } = handler.command() {
            assert_eq!(routing_key, "bob");
            told += 1;
        }
        next = handler.resume(Reply::Done);
    }
    assert_eq!(told, 2);
}

#[test]
fn new_post_is_dated_today() {
    let before = OffsetDateTime::now_utc().date();
    let handler = post_new_post("ada".to_string(), notes());
    let later = OffsetDateTime::now_utc().date();
    match handler.command() {
        Command::Insert { record: Record::Post(post), .. } => {
            assert!(before <= post.date_of_creation && post.date_of_creation <= later);
            assert_eq!(post.author, "ada");
        }
        other => panic!("{:?}", other),
    }
}

#[test]
fn post_of_missing_user_is_a_bad_request() {
    let failure = fails(at_update().resume(Reply::Found(None)));
    assert_eq!(failure.status, Status::BadRequest);
    assert_eq!(failure.message, "user ada not found");
}

#[test]
fn each_failed_command_of_a_publication_is_reported() {
    let one = ["bob"];
    assert_eq!(fails(at_insert().resume(broken())).message, "failed to insert post: x");
    assert_eq!(
        fails(at_insert().resume(Reply::NotEncoded("y".to_string()))).message,
        "failed to insert post: y"
    );
    assert_eq!(fails(at_update().resume(broken())).message, "failed to update user");
    assert_eq!(
        fails(at_encode_post(&one).resume(broken())).message,
        "failed to serialize post: x"
    );
    assert_eq!(
        fails(at_cache_post(&one).resume(broken())).message,
        "failed to insert post into redis cache: x"
    );
    assert_eq!(
        fails(at_encode_user(&one).resume(broken())).message,
        "failed to serialize user: x"
    );
    assert_eq!(
        fails(at_cache_user(&one).resume(broken())).message,
        "failed to insert user into redis cache: x"
    );
    assert_eq!(
        fails(at_channel(&one).resume(broken())).message,
        "failed to create rabbitmq channel: x"
    );
    assert_eq!(
        fails(at_encode_news(&one).resume(broken())).message,
        "failed to serialize post notification: x"
    );
    let declare = asks(at_encode_news(&one).resume(Reply::Encoded(vec![])));
    assert_eq!(fails(declare.resume(broken())).message, "failed to declare queue: x");
    let declare = asks(at_encode_news(&one).resume(Reply::Encoded(vec![])));
    let publish = asks(declare.resume(Reply::Done));
    let failure = fails(publish.resume(broken()));
    assert_eq!(failure.message, "failed to publish post to friends: x");
    assert_eq!(failure.status, Status::InternalServerError);
}

#[test]
fn failure_stops_the_announcements() {
    let declare = asks(at_encode_news(&["bob", "carol"]).resume(Reply::Encoded(vec![])));
    assert!(matches!(declare.resume(broken()), Next::Respond(Err(_))));
}

#[test]
fn publication_refuses_replies_out_of_turn() {
    match at_update().resume(Reply::Done) {
        Next::OutOfTurn(PostNewPost::UpdateUser { post }) => assert_eq!(post.title, "Notes"),
        other => panic!("{:?}", other),
    }
}

#[test]
fn comments_of_published_post_are_looked_up_under_its_key() {
    let (key, value) = match at_cache_post(&[]).command() {
        Command::CacheSet { key, value } => (key, value),
        other => panic!("{:?}", other),
    };
    let listing = get_post_comment("ada".to_string(), "Notes".to_string());
    match listing.command() {
        Command::CacheGet { key: read } => assert_eq!(read, key),
        other => panic!("{:?}", other),
    }
    match asks(listing.resume(Reply::Cached(CacheValue::Data(value)))).command() {
        Command::DecodeJson { kind, bytes } => {
            assert_eq!(kind, Kind::Post);
            assert_eq!(bytes, [1]);
        }
        other => panic!("{:?}", other),
    }
}

#[test]
fn post_keys_meet_where_a_name_has_a_slash() {
    let key = |username: &str, title: &str| {
        match get_post_comment(username.to_string(), title.to_string()).command() {
            Command::CacheGet { key } => key,
            other => panic!("{:?}", other),
        }
    };
    assert_eq!(key("a", "b/c"), key("a/b", "c"));
    assert_ne!(key("a", "b"), key("ab", ""));
    assert_ne!(key("a", "b"), key("a", "c"));
}

fn at_like() -> PostPostLike {
    post_post_like("ada".to_string(), "Notes".to_string(), Like { liker: "bob".to_string() })
}

fn liker() -> User {
    let mut user = User::register(
        NewUser {
            name: "Bob Babbage".to_string(),
            username: "bob".to_string(),
            email: "bob@example.org".to_string(),
            password: "gear".to_string(),
        },
        day(),
    );
    user.likes_posts.push(("ada".to_string(), "Notes".to_string()));
    user
}

fn at_count() -> PostPostLike {
    asks(at_like().resume(Reply::Found(Some(Record::User(liker())))))
}

fn at_like_news() -> PostPostLike {
    let post = Post::publish(notes(), "ada".to_string(), day());
    asks(at_count().resume(Reply::Found(Some(Record::Post(post)))))
}

fn at_like_channel() -> PostPostLike {
    asks(at_like_news().resume(Reply::Encoded(vec![6])))
}

fn at_like_publish() -> PostPostLike {
    asks(at_like_channel().resume(Reply::Done))
}

#[test]
fn like_is_recorded_counted_and_announced() {
    match at_like().command() {
        Command::FindOneAndUpdate { kind, collection, filter, update, return_updated } => {
            let mut expected_filter = Document::new();
            expected_filter.insert("username", "bob");
            let mut pushed = Document::new();
            pushed.insert(
                "likes_posts",
                Bson::Array(vec![
                    Bson::String("ada".to_string()),
                    Bson::String("Notes".to_string()),
                ]),
            );
            let mut expected_update = Document::new();
            expected_update.insert("$push", pushed);
            assert_eq!(kind, Kind::User);
            assert_eq!(collection, "user");
            assert_eq!(filter, expected_filter);
            assert_eq!(update, expected_update);
            assert!(return_updated);
        }
        other => panic!("{:?}", other),
    }
    match at_count().command() {
        Command::FindOneAndUpdate { kind, collection, filter, update, return_updated } => {
            let mut expected_filter = Document::new();
            expected_filter.insert("author", "ada");
            expected_filter.insert("title", "Notes");
            let mut counted = Document::new();
            counted.insert("number_of_likes", 1i32);
            let mut expected_update = Document::new();
            expected_update.insert("$inc", counted);
            assert_eq!(kind, Kind::Post);
            assert_eq!(collection, "post");
            assert_eq!(filter, expected_filter);
            assert_eq!(update, expected_update);
            assert!(!return_updated);
        }
        other => panic!("{:?}", other),
    }
    match at_like_news().command() {
        Command::EncodeJson { record: Record::Notification(Notification::NewPostLike(like)) } => {
            assert_eq!(like.title, "Notes");
            assert_eq!(like.liker, "bob");
        }
        other => panic!("{:?}", other),
    }
    assert!(matches!(at_like_channel().command(), Command::OpenChannel));
    match at_like_publish().command() {
        Command::Publish { exchange, routing_key, payload } => {
            assert_eq!(exchange, "");
            assert_eq!(routing_key, "ada");
            assert_eq!(payload, [6]);
        }
        other => panic!("{:?}", other),
    }
    assert!(matches!(at_like_publish().resume(Reply::Done), Next::Respond(Ok(()))));
}

#[test]
fn like_goes_on_where_the_post_is_missing() {
    let handler = asks(at_count().resume(Reply::Found(None)));
    assert!(matches!(
        handler.command(),
        Command::EncodeJson { record: Record::Notification(Notification::NewPostLike(_)) }
    ));
}

#[test]
fn like_by_missing_user_is_a_bad_request() {
    let failure = fails(at_like().resume(Reply::Found(None)));
    assert_eq!(failure.status, Status::BadRequest);
    assert_eq!(failure.message, "user bob not found");
}

#[test]
fn each_failed_command_of_a_like_is_reported() {
    assert_eq!(fails(at_like().resume(broken())).message, "failed to like post: x");
    assert_eq!(fails(at_count().resume(broken())).message, "failed to like post: x");
    assert_eq!(
        fails(at_like_news().resume(broken())).message,
        "failed to serialize notification: x"
    );
    assert_eq!(
        fails(at_like_channel().resume(broken())).message,
        "failed to create rabbitmq channel: x"
    );
    let failure = fails(at_like_publish().resume(broken()));
    assert_eq!(failure.message, "failed to publish notification: x");
    assert_eq!(failure.status, Status::InternalServerError);
}

#[test]
fn like_refuses_records_of_another_kind() {
    let post = Post::publish(notes(), "ada".to_string(), day());
    match at_like().resume(Reply::Found(Some(Record::Post(post)))) {
        Next::OutOfTurn(PostPostLike::UpdateUser { liker, .. }) => assert_eq!(liker, "bob"),
        other => panic!("{:?}", other),
    }
    match at_count().resume(Reply::Found(Some(Record::User(author(&[]))))) {
        Next::OutOfTurn(PostPostLike::UpdatePost { title, .. }) => assert_eq!(title, "Notes"),
        other => panic!("{:?}", other),
    }
}

fn wrong_type() -> Fault {
    Fault { kind: FaultKind::TypeError, text: "wrong type".to_string() }
}

#[test]
fn post_bytes_are_taken_from_cached_data_only() {
    assert_eq!(Post::from_redis_value(CacheValue::Data(vec![4, 2])), Ok(vec![4, 2]));
    assert_eq!(Post::from_redis_value(CacheValue::Nil), Err(wrong_type()));
    assert_eq!(Post::from_redis_value(CacheValue::Other), Err(wrong_type()));
    assert_eq!(
        Post::undecodable("EOF".to_string()),
        Fault {
            kind: FaultKind::Serialize,
            text: "error deserializing into post: EOF".to_string()
        }
    );
}
