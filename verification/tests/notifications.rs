use std::fmt::Debug;

use buzzwords::dialogue::{Command, Delivery, Failure, Handler, Kind, Next, Record, Reply, Status};
use buzzwords::notification::{
    get_user_notification, GetUserNotification, NewFollower, NewPostLike, Notification,
};
use buzzwords::post::{post_post_like, Like};
use buzzwords::user::{NewUser, User};
use time::{Date, Month};

fn asks<S: Debug, A: Debug>(next: Next<S, A>) -> S {
    match next {
        Next::Ask(state) => state,
        other => panic!("no further command: {:?}", other),
    }
}

fn answers<S: Debug, A: Debug>(next: Next<S, A>) -> A {
    match next {
        Next::Respond(Ok(answer)) => answer,
        other => panic!("no answer: {:?}", other),
    }
}

fn fails<S: Debug, A: Debug>(next: Next<S, A>) -> Failure {
    match next {
        Next::Respond(Err(failure)) => failure,
        other => panic!("no failure: {:?}", other),
    }
}

fn broken() -> Reply {
    Reply::Failed("x".to_string())
}

fn start() -> GetUserNotification {
    get_user_notification("ada".to_string())
}

fn fetching() -> GetUserNotification {
    asks(start().resume(Reply::Done))
}

fn delivered(tag: u64, data: Vec<u8>) -> Reply {
    Reply::Fetched(Some(Delivery { delivery_tag: tag, data }))
}

fn followed_by(username: &str) -> Reply {
    Reply::Decoded(Record::Notification(Notification::NewFollower(NewFollower {
        username: username.to_string(),
    })))
}

#[test]
fn empty_queue_gives_no_notifications() {
    assert!(matches!(start().command(), Command::OpenChannel));
    match fetching().command() {
        Command::Fetch { queue } => assert_eq!(queue, "ada"),
        other => panic!("{:?}", other),
    }
    assert!(answers(fetching().resume(Reply::Fetched(None))).is_empty());
}

#[test]
fn messages_are_acknowledged_decoded_and_kept_in_order() {
    let mut handler = fetching();
    for (tag, name) in [(11, "bob"), (12, "carol"), (13, "dan")] {
        match handler.command() {
            Command::Fetch { queue } => assert_eq!(queue, "ada"),
            other => panic!("{:?}", other),
        }
        handler = asks(handler.resume(delivered(tag, vec![tag as u8])));
        match handler.command() {
            Command::Acknowledge { delivery_tag } => assert_eq!(delivery_tag, tag),
            other => panic!("{:?}", other),
        }
        handler = asks(handler.resume(Reply::Done));
        match handler.command() {
            Command::DecodeJson { kind, bytes } => {
                assert_eq!(kind, Kind::Notification);
                assert_eq!(bytes, [tag as u8]);
            }
            other => panic!("{:?}", other),
        }
        handler = asks(handler.resume(followed_by(name)));
    }
    let notifications = answers(handler.resume(Reply::Fetched(None)));
    let names: Vec<&str> = notifications
        .iter()
        .map(|notification| match notification {
            Notification::NewFollower(follower) => follower.username.as_str(),
            other => panic!("{:?}", other),
        })
        .collect();
    assert_eq!(names, ["bob", "carol", "dan"]);
}

#[test]
fn undecodable_message_fails_after_it_was_acknowledged() {
    let handler = asks(fetching().resume(delivered(1, vec![0])));
    let handler = asks(handler.resume(Reply::Done));
    let failure = fails(handler.resume(broken()));
    assert_eq!(failure.status, Status::InternalServerError);
    assert_eq!(failure.message, "failed to deserialize notification: x");
}

#[test]
fn each_failed_command_of_taking_notifications_is_reported() {
    assert_eq!(fails(start().resume(broken())).message, "failed to create rabbitmq channel: x");
    assert_eq!(fails(fetching().resume(broken())).message, "failed to get next notification: x");
    let handler = asks(fetching().resume(delivered(1, vec![])));
    let failure = fails(handler.resume(broken()));
    assert_eq!(failure.message, "failed to ack notification: x");
    assert_eq!(failure.status, Status::InternalServerError);
}

#[test]
fn taking_notifications_refuses_replies_out_of_turn() {
    match fetching().resume(Reply::Done) {
        Next::OutOfTurn(GetUserNotification::Fetch { username, received }) => {
            assert_eq!(username, "ada");
            assert!(received.is_empty());
        }
        other => panic!("{:?}", other),
    }
}

#[test]
fn news_of_a_like_reaches_the_queue_that_is_read() {
    let user = User::register(
        NewUser {
            name: "Bob Babbage".to_string(),
            username: "bob".to_string(),
            email: "bob@example.org".to_string(),
            password: "gear".to_string(),
        },
        Date::from_calendar_date(2023, Month::March, 5).unwrap(),
    );
    let like = post_post_like(
        "ada".to_string(),
        "Notes".to_string(),
        Like { liker: "bob".to_string() },
    );
    let like = asks(like.resume(Reply::Found(Some(Record::User(user)))));
    let like = asks(like.resume(Reply::Found(None)));
    let like = asks(like.resume(Reply::Encoded(vec![42])));
    let like = asks(like.resume(Reply::Done));
    let (sent_to, sent) = match like.command() {
        Command::Publish { routing_key, payload, .. } => (routing_key, payload),
        other => panic!("{:?}", other),
    };
    let reading = fetching();
    match reading.command() {
        Command::Fetch { queue } => assert_eq!(queue, sent_to),
        other => panic!("{:?}", other),
    }
    let reading = asks(asks(reading.resume(delivered(1, sent))).resume(Reply::Done));
    match reading.command() {
        Command::DecodeJson { bytes, .. } => assert_eq!(bytes, [42]),
        other => panic!("{:?}", other),
    }
    let reading = asks(reading.resume(Reply::Decoded(Record::Notification(
        Notification::NewPostLike(NewPostLike {
            title: "Notes".to_string(),
            liker: "bob".to_string(),
        }),
    ))));
    match &answers(reading.resume(Reply::Fetched(None)))[..] {
        [Notification::NewPostLike(like)] => assert_eq!(like.title, "Notes"),
        other => panic!("{:?}", other),
    }
}
