use std::fmt::Debug;

use buzzwords::comment::{get_post_comment, post_comment_like, post_new_comment, NewComment};
use buzzwords::dialogue::{
    CacheValue, Command, Delivery, Failure, Handler, Next, Record, Reply, Status,
};
use buzzwords::follow::{post_user_follow, Follow};
use buzzwords::notification::{get_user_notification, NewFollower, Notification};
use buzzwords::post::{post_new_post, post_post_like, Like, NewPost, Post};
use buzzwords::user::{get_user, post_new_user, NewUser, User};
use time::{Date, Month};

/// Runs a handler on replies that are all in turn: the commands that it had,
/// and its answer, if there is one.
fn run<H>(handler: H, replies: Vec<Reply>) -> (Vec<Command>, Option<Result<H::Answer, Failure>>)
where
    H: Handler + Debug,
    H::Answer: Debug,
{
    let mut asked = vec![handler.command()];
    let mut state = handler;
    for reply in replies {
        match state.resume(reply) {
            Next::Ask(next) => {
                asked.push(next.command());
                state = next;
            }
            Next::Respond(answer) => return (asked, Some(answer)),
            other => panic!("{:?}", other),
        }
    }
    (asked, None)
}

fn new_user() -> NewUser {
    NewUser {
        name: "Ada Lovelace".to_string(),
        username: "ada".to_string(),
        email: "ada@example.org".to_string(),
        password: "engine".to_string(),
    }
}

fn day() -> Date {
    Date::from_calendar_date(2023, Month::March, 5).unwrap()
}

fn user(followers: &[&str]) -> Reply {
    let mut user = User::register(new_user(), day());
    for follower in followers {
        user.followers.push(follower.to_string());
    }
    Reply::Found(Some(Record::User(user)))
}

fn post() -> Post {
    Post::publish(
        NewPost { title: "Notes".to_string(), content: "On the engine".to_string() },
        "ada".to_string(),
        day(),
    )
}

fn publish() -> impl Handler<Answer = Post> + Debug {
    post_new_post(
        "ada".to_string(),
        NewPost { title: "Notes".to_string(), content: "On the engine".to_string() },
    )
}

#[test]
fn failure_is_the_end_of_a_request() {
    let failed = || Reply::Failed("down".to_string());
    let (asked, outcome) = run(get_user("ada".to_string()), vec![failed(), Reply::Done]);
    assert_eq!(asked.len(), 1);
    assert_eq!(outcome.unwrap().unwrap_err().status, Status::InternalServerError);
    let (asked, outcome) = run(publish(), vec![Reply::Done, failed(), user(&[])]);
    assert_eq!(asked.len(), 2);
    assert_eq!(outcome.unwrap().unwrap_err().message, "failed to update user");
}

#[test]
fn answered_request_ignores_what_follows() {
    let replies = || vec![Reply::Cached(CacheValue::Nil), Reply::Found(None)];
    let mut more = replies();
    more.push(Reply::Done);
    more.push(Reply::Failed("late".to_string()));
    let (asked, outcome) = run(get_user("ada".to_string()), replies());
    let (asked_more, outcome_more) = run(get_user("ada".to_string()), more);
    assert_eq!(format!("{:?}", asked), format!("{:?}", asked_more));
    assert_eq!(format!("{:?}", outcome), format!("{:?}", outcome_more));
}

#[test]
fn unanswered_request_waits_for_one_more_reply() {
    let (asked, outcome) = run(publish(), vec![Reply::Done]);
    assert_eq!(asked.len(), 2);
    assert!(outcome.is_none());
    let (asked, outcome) = run(get_user_notification("ada".to_string()), vec![]);
    assert_eq!(asked.len(), 1);
    assert!(outcome.is_none());
}

#[test]
fn requests_take_as_many_commands_as_they_may() {
    let (asked, outcome) = run(post_new_user(new_user()), vec![Reply::Done]);
    assert_eq!(asked.len(), 1);
    assert!(outcome.unwrap().is_ok());

    let (asked, outcome) = run(
        get_user("ada".to_string()),
        vec![
            Reply::Cached(CacheValue::Nil),
            user(&[]),
            Reply::Encoded(vec![]),
            Reply::Done,
        ],
    );
    assert_eq!(asked.len(), 4);
    assert!(outcome.unwrap().is_ok());

    let (asked, outcome) = run(
        post_user_follow("ada".to_string(), Follow { follower: "bob".to_string() }),
        vec![
            user(&["bob"]),
            Reply::Encoded(vec![]),
            Reply::Done,
            Reply::Done,
            Reply::Encoded(vec![]),
            Reply::Done,
        ],
    );
    assert_eq!(asked.len(), 6);
    assert!(outcome.unwrap().is_ok());

    let (asked, outcome) = run(
        post_post_like(
            "ada".to_string(),
            "Notes".to_string(),
            Like { liker: "bob".to_string() },
        ),
        vec![
            user(&[]),
            Reply::Found(None),
            Reply::Encoded(vec![]),
            Reply::Done,
            Reply::Done,
        ],
    );
    assert_eq!(asked.len(), 5);
    assert!(outcome.unwrap().is_ok());

    let (asked, outcome) = run(
        post_new_comment(
            "ada".to_string(),
            "Notes".to_string(),
            NewComment {
                title: "First".to_string(),
                content: "Well put".to_string(),
                author: "bob".to_string(),
            },
        ),
        vec![
            Reply::Found(Some(Record::Post(post()))),
            Reply::Done,
            Reply::Done,
            Reply::Encoded(vec![]),
            Reply::Done,
            Reply::Encoded(vec![]),
            Reply::Done,
        ],
    );
    assert_eq!(asked.len(), 7);
    assert!(outcome.unwrap().is_ok());
}

#[test]
fn publication_takes_two_commands_for_each_follower() {
    for followers in [&[][..], &["bob"][..], &["bob", "carol", "dan"][..]] {
        let mut replies = vec![
            Reply::Done,
            user(followers),
            Reply::Encoded(vec![1]),
            Reply::Done,
            Reply::Encoded(vec![2]),
            Reply::Done,
            Reply::Done,
            Reply::Encoded(vec![3]),
        ];
        for _ in 0..2 * followers.len() {
            replies.push(Reply::Done);
        }
        let (asked, outcome) = run(publish(), replies);
        assert_eq!(asked.len(), 8 + 2 * followers.len());
        assert_eq!(outcome.unwrap().unwrap().title, "Notes");
        let told: Vec<String> = asked
            .into_iter()
            .filter_map(|command| match command {
                Command::Publish { routing_key, .. } => Some(routing_key),
                _ => None,
            })
            .collect();
        assert_eq!(told, followers);
    }
}

#[test]
fn lookups_of_comments_and_notifications_write_nothing() {
    let (asked, _) = run(
        get_post_comment("ada".to_string(), "Notes".to_string()),
        vec![
            Reply::Cached(CacheValue::Nil),
            Reply::Found(Some(Record::Post(post()))),
            Reply::Done,
            Reply::Found(None),
        ],
    );
    assert_eq!(asked.len(), 4);
    let news = Notification::NewFollower(NewFollower { username: "bob".to_string() });
    let (asked_next, outcome) = run(
        get_user_notification("ada".to_string()),
        vec![
            Reply::Done,
            Reply::Fetched(Some(Delivery { delivery_tag: 7, data: vec![1] })),
            Reply::Done,
            Reply::Decoded(Record::Notification(news)),
            Reply::Fetched(None),
        ],
    );
    assert_eq!(asked_next.len(), 5);
    assert_eq!(outcome.unwrap().unwrap().len(), 1);
    for command in asked.iter().chain(asked_next.iter()) {
        assert!(!matches!(
            command,
            Command::Insert { .. }
                | Command::FindOneAndUpdate { .. }
                | Command::CacheSet { .. }
                | Command::Publish { .. }
                | Command::DeclareQueue { .. }
        ));
    }
}

#[test]
fn nobody_is_told_where_nothing_was_found() {
    let (asked, outcome) = run(
        post_comment_like(
            "ada".to_string(),
            "Notes".to_string(),
            "First".to_string(),
            Like { liker: "carol".to_string() },
        ),
        vec![Reply::Found(None), Reply::Done, Reply::Done],
    );
    assert_eq!(asked.len(), 1);
    assert_eq!(outcome.unwrap().unwrap_err().status, Status::NotFound);
    let (asked, outcome) = run(publish(), vec![Reply::Done, Reply::Found(None), Reply::Done]);
    assert_eq!(asked.len(), 2);
    assert_eq!(outcome.unwrap().unwrap_err().status, Status::BadRequest);
    assert!(!asked.iter().any(|command| matches!(
        command,
        Command::Publish { .. } | Command::CacheSet { .. }
    )));
}
