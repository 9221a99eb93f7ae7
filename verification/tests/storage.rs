use std::collections::HashMap;

use buzzwords::comment::{
    get_post_comment, post_comment_like, Comment, NewComment, PostNewComment,
};
use buzzwords::dialogue::{CacheValue, Command, Delivery, Failure, Handler, Next, Record, Reply};
use buzzwords::follow::{post_user_follow, Follow};
use buzzwords::notification::{get_user_notification, Notification};
use buzzwords::post::{post_post_like, Like, NewPost, Post, PostNewPost};
use buzzwords::user::{get_user, NewUser, PostNewUser, User};
use mongodb::bson::Document;
use time::{Date, Month};

fn copy(record: &Record) -> Record {
    match record {
        Record::User(user) => Record::User(user.clone()),
        Record::Post(post) => Record::Post(post.clone()),
        Record::Comment(comment) => Record::Comment(comment.clone()),
        Record::Notification(notification) => Record::Notification(notification.clone()),
    }
}

fn text<'a>(record: &'a Record, key: &str) -> Option<&'a str> {
    match (record, key) {
        (Record::User(user), "username") => Some(&user.username),
        (Record::User(user), "name") => Some(&user.name),
        (Record::Post(post), "author") => Some(&post.author),
        (Record::Post(post), "title") => Some(&post.title),
        (Record::Comment(comment), "post_author") => Some(&comment.post_author),
        (Record::Comment(comment), "post_title") => Some(&comment.post_title),
        (Record::Comment(comment), "title") => Some(&comment.title),
        _ => None,
    }
}

fn meets(record: &Record, filter: &Document) -> bool {
    filter.keys().all(|key| text(record, key) == filter.get_str(key).ok())
}

struct Stored {
    record: Record,
    number_of_likes: i32,
}

fn update(stored: &mut Stored, update: &Document) {
    if let Ok(pushed) = update.get_document("$push") {
        match &mut stored.record {
            Record::User(user) => {
                if let Ok(follower) = pushed.get_str("followers") {
                    user.followers.push(follower.to_string());
                }
                if let Ok(title) = pushed.get_str("posts") {
                    user.posts.push(title.to_string());
                }
                if let Ok(pair) = pushed.get_array("likes_posts") {
                    user.likes_posts.push((
                        pair[0].as_str().unwrap().to_string(),
                        pair[1].as_str().unwrap().to_string(),
                    ));
                }
            }
            Record::Post(post) => {
                post.comments.push(pushed.get_str("comments").unwrap().to_string())
            }
            other => panic!("{:?}", other),
        }
    }
    if let Ok(added) = update.get_document("$addToSet") {
        let liker = added.get_str("likers").unwrap().to_string();
        match &mut stored.record {
            Record::Comment(comment) => {
                if !comment.likers.contains(&liker) {
                    comment.likers.push(liker);
                }
            }
            other => panic!("{:?}", other),
        }
    }
    if let Ok(counted) = update.get_document("$inc") {
        stored.number_of_likes += counted.get_i32("number_of_likes").unwrap();
    }
}

/// A document store, a cache and queues in memory.
#[derive(Default)]
struct World {
    store: HashMap<&'static str, Vec<Stored>>,
    cache: HashMap<String, Vec<u8>>,
    found: Vec<Record>,
    encoded: HashMap<Vec<u8>, Record>,
    sent: Vec<(String, Vec<u8>)>,
    queues: HashMap<String, Vec<Vec<u8>>>,
    fetched: u64,
    acknowledged: Vec<u64>,
}

impl World {
    fn documents(&mut self, collection: &'static str) -> &mut Vec<Stored> {
        self.store.entry(collection).or_default()
    }

    fn kept_out(&mut self, collection: &'static str, record: &Record) -> bool {
        let indexes = buzzwords::mongo::index_mongo();
        let documents = self.documents(collection);
        indexes.iter().filter(|index| index.collection == collection).any(|index| {
            documents.iter().any(|stored| {
                index.keys.keys().all(|key| text(&stored.record, key) == text(record, key))
            })
        })
    }

    fn perform(&mut self, command: Command) -> Reply {
        match command {
            Command::Insert { collection, record } => {
                if self.kept_out(collection, &record) {
                    return Reply::Failed("duplicate key".to_string());
                }
                self.documents(collection).push(Stored { record, number_of_likes: 0 });
                Reply::Done
            }
            Command::FindOne { collection, filter, .. } => Reply::Found(
                self.documents(collection)
                    .iter()
                    .find(|stored| meets(&stored.record, &filter))
                    .map(|stored| copy(&stored.record)),
            ),
            Command::FindOneAndUpdate {
                collection,
                filter,
                update: change,
                return_updated,
                ..
            } => {
                let documents = self.documents(collection);
                match documents.iter_mut().find(|stored| meets(&stored.record, &filter)) {
                    None => Reply::Found(None),
                    Some(stored) => {
                        let before = copy(&stored.record);
                        update(stored, &change);
                        Reply::Found(Some(if return_updated {
                            copy(&stored.record)
                        } else {
                            before
                        }))
                    }
                }
            }
            Command::Find { collection, filter, .. } => {
                let found: Vec<Record> = self
                    .documents(collection)
                    .iter()
                    .rev()
                    .filter(|stored| meets(&stored.record, &filter))
                    .map(|stored| copy(&stored.record))
                    .collect();
                self.found = found;
                Reply::Done
            }
            Command::NextFound { .. } => Reply::Found(self.found.pop()),
            Command::EncodeJson { record } => {
                let bytes = format!("{:?}", record).into_bytes();
                self.encoded.insert(bytes.clone(), record);
                Reply::Encoded(bytes)
            }
            Command::DecodeJson { bytes, .. } => Reply::Decoded(copy(&self.encoded[&bytes])),
            Command::CacheGet { key } => Reply::Cached(match self.cache.get(&key) {
                Some(bytes) => CacheValue::Data(bytes.clone()),
                None => CacheValue::Nil,
            }),
            Command::CacheSet { key, value } => {
                self.cache.insert(key, value);
                Reply::Done
            }
            Command::Publish { routing_key, payload, .. } => {
                if let Some(queue) = self.queues.get_mut(&routing_key) {
                    queue.push(payload.clone());
                }
                self.sent.push((routing_key, payload));
                Reply::Done
            }
            Command::DeclareQueue { queue } => {
                self.queues.entry(queue).or_default();
                Reply::Done
            }
            Command::Fetch { queue } => match self.queues.get_mut(&queue) {
                None => Reply::Failed("no queue".to_string()),
                Some(messages) if messages.is_empty() => Reply::Fetched(None),
                Some(messages) => {
                    self.fetched += 1;
                    Reply::Fetched(Some(Delivery {
                        delivery_tag: self.fetched,
                        data: messages.remove(0),
                    }))
                }
            },
            Command::Acknowledge { delivery_tag } => {
                self.acknowledged.push(delivery_tag);
                Reply::Done
            }
            Command::OpenChannel => Reply::Done,
        }
    }

    fn serve<H: Handler>(&mut self, mut handler: H) -> Result<H::Answer, Failure> {
        loop {
            let reply = self.perform(handler.command());
            handler = match handler.resume(reply) {
                Next::Ask(next) => next,
                Next::Respond(answer) => return answer,
                Next::OutOfTurn(_) => panic!("out of turn"),
            };
        }
    }

    fn user(&mut self, username: &str) -> User {
        self.documents("user")
            .iter()
            .find_map(|stored| match &stored.record {
                Record::User(user) if user.username == username => Some(user.clone()),
                _ => None,
            })
            .unwrap()
    }

    fn post(&mut self, title: &str) -> (Post, i32) {
        self.documents("post")
            .iter()
            .find_map(|stored| match &stored.record {
                Record::Post(post) if post.title == title => {
                    Some((post.clone(), stored.number_of_likes))
                }
                _ => None,
            })
            .unwrap()
    }

    fn state(&self) -> String {
        let mut collections: Vec<String> = self
            .store
            .iter()
            .map(|(name, documents)| {
                let records: Vec<String> = documents
                    .iter()
                    .map(|stored| format!("{:?} {}", stored.record, stored.number_of_likes))
                    .collect();
                format!("{name}: {records:?}")
            })
            .collect();
        collections.sort();
        let mut entries: Vec<String> =
            self.cache.iter().map(|entry| format!("{:?}", entry)).collect();
        entries.sort();
        format!("{collections:?} {entries:?}")
    }
}

fn day() -> Date {
    Date::from_calendar_date(2023, Month::March, 5).unwrap()
}

fn registration(name: &str, username: &str) -> PostNewUser {
    PostNewUser::begin(
        NewUser {
            name: name.to_string(),
            username: username.to_string(),
            email: format!("{username}@example.org"),
            password: "secret".to_string(),
        },
        day(),
    )
}

fn publication(username: &str, title: &str, content: &str) -> PostNewPost {
    PostNewPost::begin(
        username.to_string(),
        NewPost { title: title.to_string(), content: content.to_string() },
        day(),
    )
}

fn comment(title: &str) -> PostNewComment {
    PostNewComment::begin(
        "alice".to_string(),
        "t".to_string(),
        NewComment {
            title: title.to_string(),
            content: "so it is".to_string(),
            author: "bob".to_string(),
        },
        day(),
    )
}

/// Alice and Bob are registered, and Alice has published "t".
fn peopled() -> World {
    let mut world = World::default();
    world.serve(registration("Alice", "alice")).unwrap();
    world.serve(registration("Bob", "bob")).unwrap();
    world.serve(publication("alice", "t", "a")).unwrap();
    world
}

fn follow(world: &mut World, follower: &str) {
    let follow = Follow { follower: follower.to_string() };
    world.serve(post_user_follow("alice".to_string(), follow)).unwrap();
}

fn like(world: &mut World, liker: &str) -> Result<(), Failure> {
    let like = Like { liker: liker.to_string() };
    world.serve(post_post_like("alice".to_string(), "t".to_string(), like))
}

fn like_comment(world: &mut World, liker: &str) -> Comment {
    world
        .serve(post_comment_like(
            "alice".to_string(),
            "t".to_string(),
            "First".to_string(),
            Like { liker: liker.to_string() },
        ))
        .unwrap()
}

#[test]
fn registered_user_is_what_the_next_lookup_gives() {
    let mut world = World::default();
    let user = world.serve(registration("Alice", "alice")).unwrap();
    let found = world.serve(get_user("alice".to_string())).unwrap();
    assert_eq!(format!("{:?}", found), format!("{:?}", user));
    assert!(world.cache.contains_key("alice"));
}

#[test]
fn second_registration_of_a_name_changes_nothing() {
    let mut world = peopled();
    let before = world.state();
    let failure = world.serve(registration("Alice", "other")).unwrap_err();
    assert_eq!(failure.status.code(), 500);
    assert_eq!(failure.message, "failed to insert user: duplicate key");
    assert_eq!(world.state(), before);
}

#[test]
fn second_post_of_a_title_changes_nothing() {
    let mut world = peopled();
    follow(&mut world, "bob");
    let before = world.state();
    let sent = world.sent.len();
    for username in ["alice", "bob"] {
        let failure = world.serve(publication(username, "t", "b")).unwrap_err();
        assert_eq!(failure.status.code(), 500);
        assert_eq!(failure.message, "failed to insert post: duplicate key");
    }
    assert_eq!(world.state(), before);
    assert_eq!(world.sent.len(), sent);
}

#[test]
fn follows_are_kept_in_order_and_cached() {
    let mut world = peopled();
    for follower in ["bob", "carol", "bob"] {
        follow(&mut world, follower);
    }
    let stored = world.user("alice");
    assert_eq!(stored.followers, ["bob", "carol", "bob"]);
    assert_eq!(stored.posts, ["t"]);
    let cached = world.cache["alice"].clone();
    assert_eq!(cached, format!("{:?}", Record::User(stored)).into_bytes());
    assert!(world.user("bob").followers.is_empty());
}

#[test]
fn comments_are_kept_in_order_cached_and_listed() {
    let mut world = peopled();
    for title in ["First", "Second", "First"] {
        world.serve(comment(title)).unwrap();
    }
    let (post, _) = world.post("t");
    assert_eq!(post.comments, ["First", "Second", "First"]);
    assert_eq!(post.content, "a");
    let cached = world.cache["alice/t"].clone();
    assert_eq!(cached, format!("{:?}", Record::Post(post)).into_bytes());
    let listed =
        world.serve(get_post_comment("alice".to_string(), "t".to_string())).unwrap();
    let titles: Vec<&str> = listed.iter().map(|comment| comment.title.as_str()).collect();
    assert_eq!(titles, ["First", "Second", "First"]);
}

#[test]
fn comments_on_another_post_are_not_listed() {
    let mut world = peopled();
    world.serve(publication("bob", "u", "b")).unwrap();
    world.serve(comment("First")).unwrap();
    assert!(world.serve(get_post_comment("bob".to_string(), "u".to_string())).unwrap().is_empty());
}

#[test]
fn repeated_like_of_a_comment_only_notifies() {
    let mut world = peopled();
    world.serve(comment("First")).unwrap();
    let once = like_comment(&mut world, "carol");
    assert_eq!(once.likers, ["carol"]);
    let before = world.state();
    let told = world.sent.last().unwrap().clone();
    let number = world.sent.len();
    let twice = like_comment(&mut world, "carol");
    assert_eq!(format!("{:?}", twice), format!("{:?}", once));
    assert_eq!(world.state(), before);
    assert_eq!(world.sent.len(), number + 1);
    assert_eq!(world.sent.last(), Some(&told));
    assert_eq!(told.0, "bob");
}

#[test]
fn likers_of_a_comment_are_distinct_by_first_like() {
    let mut world = peopled();
    world.serve(comment("First")).unwrap();
    let mut last = None;
    for liker in ["dan", "carol", "dan", "alice", "carol"] {
        last = Some(like_comment(&mut world, liker));
    }
    let comment = last.unwrap();
    assert_eq!(comment.likers, ["dan", "carol", "alice"]);
    assert_eq!(comment.content, "so it is");
}

#[test]
fn likes_of_a_post_are_counted_each_time() {
    let mut world = peopled();
    let (before, number) = world.post("t");
    assert_eq!(number, 0);
    for liker in ["bob", "alice", "bob"] {
        like(&mut world, liker).unwrap();
    }
    let (liked, number) = world.post("t");
    assert_eq!(number, 3);
    assert_eq!(format!("{:?}", liked), format!("{:?}", before));
}

#[test]
fn like_of_a_post_is_given_by_the_liker() {
    let mut world = peopled();
    let alice = format!("{:?}", world.user("alice"));
    like(&mut world, "bob").unwrap();
    assert_eq!(world.user("bob").likes_posts, [("alice".to_string(), "t".to_string())]);
    assert_eq!(format!("{:?}", world.user("alice")), alice);
    let (queue, payload) = world.sent.last().unwrap();
    assert_eq!(queue, "alice");
    let news = String::from_utf8(payload.clone()).unwrap();
    assert!(news.contains("NewPostLike") && news.contains("liker: \"bob\""));
}

#[test]
fn like_by_a_stranger_changes_nothing() {
    let mut world = peopled();
    let before = world.state();
    let failure = like(&mut world, "zoe").unwrap_err();
    assert_eq!(failure.message, "user zoe not found");
    assert_eq!(world.state(), before);
}

#[test]
fn publication_stores_the_post_and_caches_post_and_author() {
    let mut world = peopled();
    follow(&mut world, "bob");
    let bob = format!("{:?}", world.user("bob"));
    let post = world.serve(publication("alice", "u", "b")).unwrap();
    assert_eq!(post.title, "u");
    let titles: Vec<String> = world
        .documents("post")
        .iter()
        .map(|stored| text(&stored.record, "title").unwrap().to_string())
        .collect();
    assert_eq!(titles, ["t", "u"]);
    let alice = world.user("alice");
    assert_eq!(alice.posts, ["t", "u"]);
    assert_eq!(alice.followers, ["bob"]);
    assert_eq!(format!("{:?}", world.user("bob")), bob);
    assert_eq!(world.cache["alice"], format!("{:?}", Record::User(alice)).into_bytes());
    assert_eq!(world.cache["alice/u"], format!("{:?}", Record::Post(post)).into_bytes());
    assert_eq!(world.cache.len(), 3);
}

#[test]
fn followers_read_back_the_post_once() {
    let mut world = peopled();
    for follower in ["bob", "carol", "bob"] {
        follow(&mut world, follower);
    }
    world.serve(publication("alice", "u", "b")).unwrap();
    for (follower, times) in [("bob", 2), ("carol", 1)] {
        let read = world.serve(get_user_notification(follower.to_string())).unwrap();
        assert_eq!(read.len(), times);
        for notification in read {
            match notification {
                Notification::NewPost(post) => assert_eq!(post.title, "u"),
                other => panic!("{:?}", other),
            }
        }
        assert!(world.serve(get_user_notification(follower.to_string())).unwrap().is_empty());
    }
    assert_eq!(world.acknowledged, [1, 2, 3]);
}

#[test]
fn messages_are_read_from_the_oldest_on() {
    let mut world = peopled();
    let of_bob = Follow { follower: "alice".to_string() };
    world.serve(post_user_follow("bob".to_string(), of_bob)).unwrap();
    world.serve(publication("bob", "v", "c")).unwrap();
    follow(&mut world, "carol");
    like(&mut world, "bob").unwrap();
    let read = world.serve(get_user_notification("alice".to_string())).unwrap();
    match &read[..] {
        [
            Notification::NewPost(post),
            Notification::NewFollower(follower),
            Notification::NewPostLike(like),
        ] => {
            assert_eq!(post.title, "v");
            assert_eq!(follower.username, "carol");
            assert_eq!(like.liker, "bob");
        }
        other => panic!("{:?}", other),
    }
}

#[test]
fn notifications_without_a_queue_fail() {
    let mut world = peopled();
    let failure = world.serve(get_user_notification("bob".to_string())).unwrap_err();
    assert_eq!(failure.message, "failed to get next notification: no queue");
}
