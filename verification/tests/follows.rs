use std::fmt::Debug;

use buzzwords::dialogue::{CacheValue, Command, Failure, Handler, Kind, Next, Record, Reply, Status};
use buzzwords::follow::{post_user_follow, Follow, PostUserFollow};
use buzzwords::notification::Notification;
use buzzwords::user::{get_user, NewUser, User};
use mongodb::bson::Document;
use time::{Date, Month};

fn asks<S: Debug, A: Debug>(next: Next<S, A>) -> S {
    match next {
        Next::Ask(state) => state,
        other => panic!("no further command: {:?}", other),
    }
}

fn fails<S: Debug, A: Debug>(next: Next<S, A>) -> Failure {
    match next {
        Next::Respond(Err(failure)) => failure,
        other => panic!("no failure: {:?}", other),
    }
}

fn followed() -> User {
    let mut user = User::register(
        NewUser {
            name: "Ada Lovelace".to_string(),
            username: "ada".to_string(),
            email: "ada@example.org".to_string(),
            password: "engine".to_string(),
        },
        Date::from_calendar_date(2023, Month::March, 5).unwrap(),
    );
    user.followers.push("bob".to_string());
    user
}

fn start() -> PostUserFollow {
    post_user_follow("ada".to_string(), Follow { follower: "bob".to_string() })
}

fn after_update() -> PostUserFollow {
    asks(start().resume(Reply::Found(Some(Record::User(followed())))))
}

fn after_news() -> PostUserFollow {
    asks(after_update().resume(Reply::Encoded(vec![1, 2])))
}

fn after_channel() -> PostUserFollow {
    asks(after_news().resume(Reply::Done))
}

fn after_publish() -> PostUserFollow {
    asks(after_channel().resume(Reply::Done))
}

fn after_encoding() -> PostUserFollow {
    asks(after_publish().resume(Reply::Encoded(vec![3, 4])))
}

#[test]
fn follow_updates_notifies_and_caches() {
    match start().command() {
        Command::FindOneAndUpdate { kind, collection, filter, update, return_updated } => {
            let mut expected_filter = Document::new();
            expected_filter.insert("username", "ada");
            let mut pushed = Document::new();
            pushed.insert("followers", "bob");
            let mut expected_update = Document::new();
            expected_update.insert("$push", pushed);
            assert_eq!(kind, Kind::User);
            assert_eq!(collection, "user");
            assert_eq!(filter, expected_filter);
            assert_eq!(update, expected_update);
            assert!(return_updated);
        }
        other => panic!("{:?}", other),
    }
    match after_update().command() {
        Command::EncodeJson { record: Record::Notification(Notification::NewFollower(news)) } => {
            assert_eq!(news.username, "bob")
        }
        other => panic!("{:?}", other),
    }
    assert!(matches!(after_news().command(), Command::OpenChannel));
    match after_channel().command() {
        Command::Publish { exchange, routing_key, payload } => {
            assert_eq!(exchange, "");
            assert_eq!(routing_key, "ada");
            assert_eq!(payload, [1, 2]);
        }
        other => panic!("{:?}", other),
    }
    match after_publish().command() {
        Command::EncodeJson { record: Record::User(user) } => {
            assert_eq!(user.followers, ["bob"])
        }
        other => panic!("{:?}", other),
    }
    match after_encoding().command() {
        Command::CacheSet { key, value } => {
            assert_eq!(key, "ada");
            assert_eq!(value, [3, 4]);
        }
        other => panic!("{:?}", other),
    }
    assert!(matches!(after_encoding().resume(Reply::Done), Next::Respond(Ok(()))));
}

#[test]
fn message_goes_to_the_user_who_was_found() {
    let mut renamed = followed();
    renamed.username = "countess".to_string();
    let handler = asks(start().resume(Reply::Found(Some(Record::User(renamed)))));
    let handler = asks(asks(handler.resume(Reply::Encoded(vec![]))).resume(Reply::Done));
    match handler.command() {
        Command::Publish { routing_key, .. } => assert_eq!(routing_key, "countess"),
        other => panic!("{:?}", other),
    }
    let handler = asks(asks(handler.resume(Reply::Done)).resume(Reply::Encoded(vec![])));
    match handler.command() {
        Command::CacheSet { key, .. } => assert_eq!(key, "ada"),
        other => panic!("{:?}", other),
    }
}

#[test]
fn lookup_after_follow_reads_what_was_cached() {
    let (key, value) = match after_encoding().command() {
        Command::CacheSet { key, value } => (key, value),
        other => panic!("{:?}", other),
    };
    let lookup = get_user("ada".to_string());
    match lookup.command() {
        Command::CacheGet { key: read } => assert_eq!(read, key),
        other => panic!("{:?}", other),
    }
    let lookup = asks(lookup.resume(Reply::Cached(CacheValue::Data(value))));
    match lookup.resume(Reply::Decoded(Record::User(followed()))) {
        Next::Respond(Ok(user)) => assert_eq!(user.followers, ["bob"]),
        other => panic!("{:?}", other),
    }
}

#[test]
fn follow_of_missing_user_is_not_found() {
    let failure = fails(start().resume(Reply::Found(None)));
    assert_eq!(failure.status, Status::NotFound);
    assert_eq!(failure.status.code(), 404);
    assert_eq!(failure.message, "user not found: ada");
}

#[test]
fn each_failed_command_of_a_follow_is_reported() {
    let broken = || Reply::Failed("x".to_string());
    assert_eq!(fails(start().resume(broken())).message, "failed to follow: x");
    assert_eq!(
        fails(after_update().resume(broken())).message,
        "failed to serialize new follower: x"
    );
    assert_eq!(
        fails(after_news().resume(broken())).message,
        "failed to create rabbitmq channel: x"
    );
    assert_eq!(
        fails(after_channel().resume(broken())).message,
        "failed to publish to rabbitmq: x"
    );
    assert_eq!(fails(after_publish().resume(broken())).message, "failed to serialize user: x");
    let failure = fails(after_encoding().resume(broken()));
    assert_eq!(failure.message, "failed update redis: x");
    assert_eq!(failure.status.code(), 500);
}

#[test]
fn follow_refuses_replies_out_of_turn() {
    match after_channel().resume(Reply::Encoded(vec![1])) {
        Next::OutOfTurn(PostUserFollow::Publish { username, user, payload }) => {
            assert_eq!(username, "ada");
            assert_eq!(user.followers, ["bob"]);
            assert_eq!(payload, [1, 2]);
        }
        other => panic!("{:?}", other),
    }
}
