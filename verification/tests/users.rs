use std::fmt::Debug;

use buzzwords::dialogue::{
    CacheValue, Command, Failure, Handler, Kind, Next, Record, Reply, Status,
};
use buzzwords::redis::{Fault, FaultKind};
use buzzwords::user::{get_user, post_new_user, GetUser, NewUser, PostNewUser, User};
use mongodb::bson::oid::ObjectId;
use mongodb::bson::Document;
use time::{Date, Month, OffsetDateTime};

fn asks<S: Debug, A: Debug>(next: Next<S, A>) -> S {
    match next {
        Next::Ask(state) => state,
        other => panic!("no further command: {:?}", other),
    }
}

fn answers<S: Debug, A: Debug>(next: Next<S, A>) -> A {
    match next {
        Next::Respond(Ok(answer)) => answer,
        other => panic!("no answer: {:?}", other),
    }
}

fn fails<S: Debug, A: Debug>(next: Next<S, A>) -> Failure {
    match next {
        Next::Respond(Err(failure)) => failure,
        other => panic!("no failure: {:?}", other),
    }
}

fn day() -> Date {
    Date::from_calendar_date(2023, Month::March, 5).unwrap()
}

fn ada() -> NewUser {
    NewUser {
        name: "Ada Lovelace".to_string(),
        username: "ada".to_string(),
        email: "ada@example.org".to_string(),
        password: "engine".to_string(),
    }
}

fn busy_user() -> User {
    let mut user = User::register(ada(), day());
    user.followers.push("bob".to_string());
    user.following.push("carol".to_string());
    user.posts.push("Notes".to_string());
    user.likes_posts.push(("carol".to_string(), "Looms".to_string()));
    user.likes_comments.push((
        "carol".to_string(),
        "Looms".to_string(),
        ObjectId::from_bytes([7; 12]),
    ));
    user
}

fn by_username(username: &str) -> Document {
    let mut filter = Document::new();
    filter.insert("username", username);
    filter
}

#[test]
fn registered_user_starts_empty() {
    let user = User::register(ada(), day());
    assert_eq!(user.name, "Ada Lovelace");
    assert_eq!(user.username, "ada");
    assert_eq!(user.email, "ada@example.org");
    assert_eq!(user.password, "engine");
    assert_eq!(user.date_of_creation, day());
    assert!(user.followers.is_empty());
    assert!(user.following.is_empty());
    assert!(user.posts.is_empty());
    assert!(user.likes_posts.is_empty());
    assert!(user.likes_comments.is_empty());
}

#[test]
fn clone_of_user_keeps_every_field() {
    let user = busy_user();
    let copy = user.clone();
    assert_eq!(copy.name, "Ada Lovelace");
    assert_eq!(copy.followers, ["bob"]);
    assert_eq!(copy.following, ["carol"]);
    assert_eq!(copy.posts, ["Notes"]);
    assert_eq!(copy.likes_posts, [("carol".to_string(), "Looms".to_string())]);
    assert_eq!(
        copy.likes_comments,
        [("carol".to_string(), "Looms".to_string(), ObjectId::from_bytes([7; 12]))]
    );
    assert_eq!(format!("{:?}", copy), format!("{:?}", user));
}

#[test]
fn new_user_is_inserted_and_returned() {
    let handler = PostNewUser::begin(ada(), day());
    match handler.command() {
        Command::Insert { collection, record: Record::User(user) } => {
            assert_eq!(collection, "user");
            assert_eq!(user.username, "ada");
            assert_eq!(user.date_of_creation, day());
        }
        other => panic!("{:?}", other),
    }
    let user = answers(handler.resume(Reply::Done));
    assert_eq!(user.username, "ada");
    assert_eq!(user.email, "ada@example.org");
}

#[test]
fn new_user_is_dated_today() {
    let before = OffsetDateTime::now_utc().date();
    let user = answers(post_new_user(ada()).resume(Reply::Done));
    let later = OffsetDateTime::now_utc().date();
    assert!(before <= user.date_of_creation && user.date_of_creation <= later);
}

#[test]
fn failed_insertion_of_user_is_reported() {
    let failure =
        fails(PostNewUser::begin(ada(), day()).resume(Reply::Failed("E11000".to_string())));
    assert_eq!(failure.status, Status::InternalServerError);
    assert_eq!(failure.message, "failed to insert user: E11000");
    let failure =
        fails(PostNewUser::begin(ada(), day()).resume(Reply::NotEncoded("bad".to_string())));
    assert_eq!(failure.status, Status::InternalServerError);
    assert_eq!(failure.message, "failed to insert user: bad");
}

#[test]
fn registration_refuses_foreign_replies() {
    let handler = PostNewUser::begin(ada(), day());
    let handler = match handler.resume(Reply::Found(None)) {
        Next::OutOfTurn(handler) => handler,
        other => panic!("{:?}", other),
    };
    assert_eq!(answers(handler.resume(Reply::Done)).username, "ada");
}

#[test]
fn user_from_cache_is_served() {
    let handler = get_user("ada".to_string());
    match handler.command() {
        Command::CacheGet { key } => assert_eq!(key, "ada"),
        other => panic!("{:?}", other),
    }
    let handler = asks(handler.resume(Reply::Cached(CacheValue::Data(vec![1, 2, 3]))));
    match handler.command() {
        Command::DecodeJson { kind, bytes } => {
            assert_eq!(kind, Kind::User);
            assert_eq!(bytes, [1, 2, 3]);
        }
        other => panic!("{:?}", other),
    }
    let user = answers(handler.resume(Reply::Decoded(Record::User(busy_user()))));
    assert_eq!(format!("{:?}", user), format!("{:?}", busy_user()));
}

fn missed(username: &str) -> GetUser {
    asks(get_user(username.to_string()).resume(Reply::Cached(CacheValue::Nil)))
}

#[test]
fn user_from_store_is_served_and_cached() {
    let handler = missed("ada");
    match handler.command() {
        Command::FindOne { kind, collection, filter } => {
            assert_eq!(kind, Kind::User);
            assert_eq!(collection, "user");
            assert_eq!(filter, by_username("ada"));
        }
        other => panic!("{:?}", other),
    }
    let handler = asks(handler.resume(Reply::Found(Some(Record::User(busy_user())))));
    match handler.command() {
        Command::EncodeJson { record: Record::User(user) } => {
            assert_eq!(format!("{:?}", user), format!("{:?}", busy_user()))
        }
        other => panic!("{:?}", other),
    }
    let handler = asks(handler.resume(Reply::Encoded(vec![9, 8])));
    match handler.command() {
        Command::CacheSet { key, value } => {
            assert_eq!(key, "ada");
            assert_eq!(value, [9, 8]);
        }
        other => panic!("{:?}", other),
    }
    let user = answers(handler.resume(Reply::Done));
    assert_eq!(user.posts, ["Notes"]);
}

#[test]
fn cached_entry_serves_the_second_lookup() {
    let handler = asks(missed("ada").resume(Reply::Found(Some(Record::User(busy_user())))));
    let handler = asks(handler.resume(Reply::Encoded(vec![5])));
    let (written_key, written) = match handler.command() {
        Command::CacheSet { key, value } => (key, value),
        other => panic!("{:?}", other),
    };
    let again = get_user("ada".to_string());
    match again.command() {
        Command::CacheGet { key } => assert_eq!(key, written_key),
        other => panic!("{:?}", other),
    }
    match asks(again.resume(Reply::Cached(CacheValue::Data(written)))).command() {
        Command::DecodeJson { kind: Kind::User, bytes } => assert_eq!(bytes, [5]),
        other => panic!("{:?}", other),
    }
}

#[test]
fn missing_user_is_a_bad_request() {
    let failure = fails(missed("zoe").resume(Reply::Found(None)));
    assert_eq!(failure.status, Status::BadRequest);
    assert_eq!(failure.status.code(), 400);
    assert_eq!(failure.message, "user zoe not found");
}

#[test]
fn cached_value_of_another_type_fails_the_lookup() {
    let failure = fails(get_user("ada".to_string()).resume(Reply::Cached(CacheValue::Other)));
    assert_eq!(failure.status, Status::InternalServerError);
    assert_eq!(
        failure.message,
        "failed to fetch user from redis: incorrect type to turn into User"
    );
}

#[test]
fn undecodable_cache_entry_fails_the_lookup() {
    let handler = asks(
        get_user("ada".to_string()).resume(Reply::Cached(CacheValue::Data(vec![0]))),
    );
    let failure = fails(handler.resume(Reply::Failed("expected value at line 1".to_string())));
    assert_eq!(failure.status, Status::InternalServerError);
    assert_eq!(
        failure.message,
        "failed to fetch user from redis: failed to parse redis bytes into a User: \
         expected value at line 1"
    );
}

#[test]
fn each_failed_command_of_a_lookup_is_reported() {
    let failure = fails(get_user("ada".to_string()).resume(Reply::Failed("x".to_string())));
    assert_eq!(failure.message, "failed to fetch user from redis: x");
    let failure = fails(missed("ada").resume(Reply::Failed("x".to_string())));
    assert_eq!(failure.message, "failed to find user: x");
    let encode = asks(missed("ada").resume(Reply::Found(Some(Record::User(busy_user())))));
    let failure = fails(encode.resume(Reply::Failed("x".to_string())));
    assert_eq!(failure.message, "failed to serialize user: x");
    let encode = asks(missed("ada").resume(Reply::Found(Some(Record::User(busy_user())))));
    let store = asks(encode.resume(Reply::Encoded(vec![])));
    let failure = fails(store.resume(Reply::Failed("x".to_string())));
    assert_eq!(failure.message, "failed to insert user into redis cache: x");
    assert_eq!(failure.status, Status::InternalServerError);
}

#[test]
fn lookup_refuses_replies_out_of_turn() {
    let handler = match get_user("ada".to_string()).resume(Reply::Done) {
        Next::OutOfTurn(handler) => handler,
        other => panic!("{:?}", other),
    };
    match handler.command() {
        Command::CacheGet { key } => assert_eq!(key, "ada"),
        other => panic!("{:?}", other),
    }
    let post = buzzwords::post::Post {
        title: "Notes".to_string(),
        content: String::new(),
        author: "ada".to_string(),
        date_of_creation: day(),
        likes: vec![],
        comments: vec![],
    };
    match missed("ada").resume(Reply::Found(Some(Record::Post(post)))) {
        Next::OutOfTurn(GetUser::Find { username }) => assert_eq!(username, "ada"),
        other => panic!("{:?}", other),
    }
}

fn type_error(text: &str) -> Fault {
    Fault { kind: FaultKind::TypeError, text: text.to_string() }
}

#[test]
fn user_bytes_are_taken_from_cached_data_only() {
    assert_eq!(User::from_redis_value(CacheValue::Data(vec![4, 2])), Ok(vec![4, 2]));
    assert_eq!(
        User::from_redis_value(CacheValue::Nil),
        Err(type_error("incorrect type to turn into User"))
    );
    assert_eq!(
        User::from_redis_value(CacheValue::Other),
        Err(type_error("incorrect type to turn into User"))
    );
    assert_eq!(
        User::undecodable("EOF".to_string()),
        type_error("failed to parse redis bytes into a User: EOF")
    );
}
