use mongodb::bson::Document;
use time::Date;
use vstd::prelude::*;

use crate::clock::today;
use crate::dialogue::{
    ask, fail, internal_error, out_of_turn, refuse, respond, CacheValue, Command, CommandView,
    FailureView, Handler, Kind, Next, NextView, Record, RecordView, Reply, ReplyView, Status,
};
use crate::mongo::{
    document_fields, match_one, match_two, operation, text_field, update, FieldValue, FieldView,
};
use crate::notification::{NewPostLike, Notification, NotificationView};
use crate::redis::{described_fault, detailed, detailed_fault, Fault, FaultKind, FaultView};
use crate::user::{copy_texts, User, UserView};

verus! {

/// A post.
#[derive(Debug)]
pub struct Post {
    pub title: String,
    pub content: String,
    pub author: String,
    pub date_of_creation: Date,
    /// The usernames of those who like the post.
    pub likes: Vec<String>,
    /// The titles of the comments on the post.
    pub comments: Vec<String>,
}

/// The mathematical content of a [`Post`].
pub struct PostView {
    pub title: Seq<char>,
    pub content: Seq<char>,
    pub author: Seq<char>,
    pub date_of_creation: Date,
    pub likes: Seq<Seq<char>>,
    pub comments: Seq<Seq<char>>,
}

impl DeepView for Post {
    type V = PostView;

    open spec fn deep_view(&self) -> PostView {
        PostView {
            title: self.title@,
            content: self.content@,
            author: self.author@,
            date_of_creation: self.date_of_creation,
            likes: self.likes.deep_view(),
            comments: self.comments.deep_view(),
        }
    }
}

impl PostView {
    /// The post that `author` publishes on `date`: nobody has liked it or
    /// commented on it yet.
    pub open spec fn published(
        title: Seq<char>,
        content: Seq<char>,
        author: Seq<char>,
        date: Date,
    ) -> PostView {
        PostView {
            title,
            content,
            author,
            date_of_creation: date,
            likes: Seq::empty(),
            comments: Seq::empty(),
        }
    }
}

impl Clone for Post {
    fn clone(&self) -> (copy: Post)
        ensures
            copy.deep_view() == self.deep_view(),
    {
        Post {
            title: self.title.clone(),
            content: self.content.clone(),
            author: self.author.clone(),
            date_of_creation: self.date_of_creation,
            likes: copy_texts(&self.likes),
            comments: copy_texts(&self.comments),
        }
    }
}

/// What a client sends to publish a post.
#[derive(Debug, Clone)]
pub struct NewPost {
    pub title: String,
    pub content: String,
}

/// What a client sends to like a post or a comment.
#[derive(Debug, Clone)]
pub struct Like {
    pub liker: String,
}

impl Post {
    /// The post that `author` publishes on `date`.
    pub fn publish(new_post: NewPost, author: String, date: Date) -> (post: Post)
        ensures
            post.deep_view() == PostView::published(
                new_post.title@,
                new_post.content@,
                author@,
                date,
            ),
            post.title@ == new_post.title@,
            post.content@ == new_post.content@,
            post.author@ == author@,
            post.date_of_creation == date,
            post.likes@.len() == 0,
            post.comments@.len() == 0,
    {
        let post = Post {
            title: new_post.title,
            content: new_post.content,
            author,
            date_of_creation: date,
            likes: Vec::new(),
            comments: Vec::new(),
        };
        assert(post.likes.deep_view() =~= Seq::empty());
        assert(post.comments.deep_view() =~= Seq::empty());
        post
    }
}

/// The key under which the cache holds a post.
pub open spec fn post_key(author: Seq<char>, title: Seq<char>) -> Seq<char> {
    author + "/"@ + title
}

/// The key under which the cache holds a post.
pub(crate) fn make_post_key(author: &str, title: &str) -> (key: String)
    ensures
        key@ == post_key(author@, title@),
{
    author.to_string().concat("/").concat(title)
}

/// Publishes a post: stores it, adds it to the author's posts, caches both
/// and notifies each follower of the author.
#[derive(Debug)]
pub enum PostNewPost {
    Insert { post: Post },
    UpdateUser { post: Post },
    EncodePost { post: Post, user: User },
    CachePost { post: Post, user: User, json: Vec<u8> },
    EncodeUser { post: Post, user: User },
    CacheUser { post: Post, user: User, json: Vec<u8> },
    OpenChannel { post: Post, followers: Vec<String> },
    EncodeNotification { post: Post, followers: Vec<String> },
    /// `waiting` holds those who come after `follower`, the last one first.
    DeclareQueue { post: Post, payload: Vec<u8>, follower: String, waiting: Vec<String> },
    /// `waiting` holds those who come after `follower`, the last one first.
    Publish { post: Post, payload: Vec<u8>, follower: String, waiting: Vec<String> },
}

/// The mathematical content of a [`PostNewPost`]; the followers come in the
/// order in which they are notified.
pub enum PostNewPostView {
    Insert { post: PostView },
    UpdateUser { post: PostView },
    EncodePost { post: PostView, user: UserView },
    CachePost { post: PostView, user: UserView, json: Seq<u8> },
    EncodeUser { post: PostView, user: UserView },
    CacheUser { post: PostView, user: UserView, json: Seq<u8> },
    OpenChannel { post: PostView, followers: Seq<Seq<char>> },
    EncodeNotification { post: PostView, followers: Seq<Seq<char>> },
    DeclareQueue {
        post: PostView,
        payload: Seq<u8>,
        follower: Seq<char>,
        waiting: Seq<Seq<char>>,
    },
    Publish { post: PostView, payload: Seq<u8>, follower: Seq<char>, waiting: Seq<Seq<char>> },
}

impl DeepView for PostNewPost {
    type V = PostNewPostView;

    open spec fn deep_view(&self) -> PostNewPostView {
        match self {
            PostNewPost::Insert { post } => PostNewPostView::Insert { post: post.deep_view() },
            PostNewPost::UpdateUser { post } => PostNewPostView::UpdateUser {
                post: post.deep_view(),
            },
            PostNewPost::EncodePost { post, user } => PostNewPostView::EncodePost {
                post: post.deep_view(),
                user: user.deep_view(),
            },
            PostNewPost::CachePost { post, user, json } => PostNewPostView::CachePost {
                post: post.deep_view(),
                user: user.deep_view(),
                json: json@,
            },
            PostNewPost::EncodeUser { post, user } => PostNewPostView::EncodeUser {
                post: post.deep_view(),
                user: user.deep_view(),
            },
            PostNewPost::CacheUser { post, user, json } => PostNewPostView::CacheUser {
                post: post.deep_view(),
                user: user.deep_view(),
                json: json@,
            },
            PostNewPost::OpenChannel { post, followers } => PostNewPostView::OpenChannel {
                post: post.deep_view(),
                followers: followers.deep_view(),
            },
            PostNewPost::EncodeNotification { post, followers } =>
                PostNewPostView::EncodeNotification {
                post: post.deep_view(),
                followers: followers.deep_view(),
            },
            PostNewPost::DeclareQueue { post, payload, follower, waiting } =>
                PostNewPostView::DeclareQueue {
                post: post.deep_view(),
                payload: payload@,
                follower: follower@,
                waiting: waiting.deep_view().reverse(),
            },
            PostNewPost::Publish { post, payload, follower, waiting } =>
                PostNewPostView::Publish {
                post: post.deep_view(),
                payload: payload@,
                follower: follower@,
                waiting: waiting.deep_view().reverse(),
            },
        }
    }
}

impl PostNewPostView {
    /// What follows once everybody before `waiting` has been notified.
    pub open spec fn announce(
        post: PostView,
        payload: Seq<u8>,
        waiting: Seq<Seq<char>>,
    ) -> NextView<PostNewPostView, PostView> {
        if waiting.len() == 0 {
            NextView::Respond(Ok(post))
        } else {
            NextView::Ask(
                PostNewPostView::DeclareQueue {
                    post,
                    payload,
                    follower: waiting[0],
                    waiting: waiting.drop_first(),
                },
            )
        }
    }
}

/// A list of texts, the last one first.
fn last_first(texts: Vec<String>) -> (turned: Vec<String>)
    ensures
        turned.deep_view().reverse() == texts.deep_view(),
{
    let ghost all = texts.deep_view();
    let mut left = texts;
    let mut turned: Vec<String> = Vec::new();
    assert(left.deep_view() + turned.deep_view().reverse() =~= all);
    while left.len() > 0
        invariant
            left.deep_view() + turned.deep_view().reverse() == all,
        decreases left.len(),
    {
        let ghost left_before = left.deep_view();
        let ghost turned_before = turned.deep_view();
        if let Some(text) = left.pop() {
            turned.push(text);
        }
        assert(left_before == left.deep_view().push(turned.deep_view().last()));
        assert(turned.deep_view() == turned_before.push(turned.deep_view().last()));
        assert(left.deep_view() + turned.deep_view().reverse() =~= left_before
            + turned_before.reverse());
    }
    assert(left.deep_view() + turned.deep_view().reverse() =~= turned.deep_view().reverse());
    turned
}

impl PostNewPost {
    /// Starts to publish a post on `date`.
    pub fn begin(username: String, new_post: NewPost, date: Date) -> (handler: PostNewPost)
        ensures
            handler.deep_view() == (PostNewPostView::Insert {
                post: PostView::published(new_post.title@, new_post.content@, username@, date),
            }),
            handler matches PostNewPost::Insert { post } && {
                &&& post.title@ == new_post.title@
                &&& post.content@ == new_post.content@
                &&& post.author@ == username@
                &&& post.date_of_creation == date
            },
    {
        PostNewPost::Insert { post: Post::publish(new_post, username, date) }
    }

    /// Goes on to the next follower; `waiting` holds the last one first.
    fn announce(post: Post, payload: Vec<u8>, waiting: Vec<String>) -> (next: Next<
        PostNewPost,
        Post,
    >)
        ensures
            next.deep_view() == PostNewPostView::announce(
                post.deep_view(),
                payload@,
                waiting.deep_view().reverse(),
            ),
    {
        let ghost all = waiting.deep_view();
        let mut waiting = waiting;
        match waiting.pop() {
            None => respond(post),
            Some(follower) => {
                assert(all.reverse()[0] == follower@);
                assert(all.reverse().drop_first() =~= waiting.deep_view().reverse());
                ask(PostNewPost::DeclareQueue { post, payload, follower, waiting })
            },
        }
    }
}

impl Handler for PostNewPost {
    type Answer = Post;

    open spec fn pending(state: PostNewPostView) -> CommandView {
        match state {
            PostNewPostView::Insert { post } => CommandView::Insert {
                collection: "post"@,
                record: RecordView::Post(post),
            },
            PostNewPostView::UpdateUser { post } => CommandView::FindOneAndUpdate {
                kind: Kind::User,
                collection: "user"@,
                filter: text_field("username"@, post.author),
                update: operation("$push"@, "posts"@, FieldView::Text(post.title)),
                return_updated: true,
            },
            PostNewPostView::EncodePost { post, .. } => CommandView::EncodeJson {
                record: RecordView::Post(post),
            },
            PostNewPostView::CachePost { post, json, .. } => CommandView::CacheSet {
                key: post_key(post.author, post.title),
                value: json,
            },
            PostNewPostView::EncodeUser { user, .. } => CommandView::EncodeJson {
                record: RecordView::User(user),
            },
            PostNewPostView::CacheUser { user, json, .. } => CommandView::CacheSet {
                key: user.username,
                value: json,
            },
            PostNewPostView::OpenChannel { .. } => CommandView::OpenChannel,
            PostNewPostView::EncodeNotification { post, .. } => CommandView::EncodeJson {
                record: RecordView::Notification(NotificationView::NewPost(post)),
            },
            PostNewPostView::DeclareQueue { follower, .. } => CommandView::DeclareQueue {
                queue: follower,
            },
            PostNewPostView::Publish { payload, follower, .. } => CommandView::Publish {
                exchange: ""@,
                routing_key: follower,
                payload,
            },
        }
    }

    open spec fn complaint(state: PostNewPostView, err: Seq<char>) -> Seq<char> {
        match state {
            PostNewPostView::Insert { .. } => "failed to insert post: "@ + err,
            PostNewPostView::UpdateUser { .. } => "failed to update user"@,
            PostNewPostView::EncodePost { .. } => "failed to serialize post: "@ + err,
            PostNewPostView::CachePost { .. } => "failed to insert post into redis cache: "@
                + err,
            PostNewPostView::EncodeUser { .. } => "failed to serialize user: "@ + err,
            PostNewPostView::CacheUser { .. } => "failed to insert user into redis cache: "@
                + err,
            PostNewPostView::OpenChannel { .. } => "failed to create rabbitmq channel: "@ + err,
            PostNewPostView::EncodeNotification { .. } =>
                "failed to serialize post notification: "@ + err,
            PostNewPostView::DeclareQueue { .. } => "failed to declare queue: "@ + err,
            PostNewPostView::Publish { .. } => "failed to publish post to friends: "@ + err,
        }
    }

    open spec fn accepted(state: PostNewPostView, reply: ReplyView) -> NextView<
        PostNewPostView,
        PostView,
    > {
        match (state, reply) {
            (PostNewPostView::Insert { .. }, ReplyView::NotEncoded(err)) => NextView::Respond(
                Err(internal_error("failed to insert post: "@ + err)),
            ),
            (PostNewPostView::Insert { post }, _) => NextView::Ask(
                PostNewPostView::UpdateUser { post },
            ),
            (
                PostNewPostView::UpdateUser { post },
                ReplyView::Found(Some(RecordView::User(user))),
            ) => NextView::Ask(PostNewPostView::EncodePost { post, user }),
            (PostNewPostView::UpdateUser { post }, _) => NextView::Respond(
                Err(
                    FailureView {
                        status: Status::BadRequest,
                        message: "user "@ + post.author + " not found"@,
                    },
                ),
            ),
            (PostNewPostView::EncodePost { post, user }, ReplyView::Encoded(json)) =>
                NextView::Ask(PostNewPostView::CachePost { post, user, json }),
            (PostNewPostView::CachePost { post, user, .. }, _) => NextView::Ask(
                PostNewPostView::EncodeUser { post, user },
            ),
            (PostNewPostView::EncodeUser { post, user }, ReplyView::Encoded(json)) =>
                NextView::Ask(PostNewPostView::CacheUser { post, user, json }),
            (PostNewPostView::CacheUser { post, user, .. }, _) => NextView::Ask(
                PostNewPostView::OpenChannel { post, followers: user.followers },
            ),
            (PostNewPostView::OpenChannel { post, followers }, _) => NextView::Ask(
                PostNewPostView::EncodeNotification { post, followers },
            ),
            (
                PostNewPostView::EncodeNotification { post, followers },
                ReplyView::Encoded(payload),
            ) => PostNewPostView::announce(post, payload, followers),
            (PostNewPostView::DeclareQueue { post, payload, follower, waiting }, _) =>
                NextView::Ask(PostNewPostView::Publish { post, payload, follower, waiting }),
            (PostNewPostView::Publish { post, payload, waiting, .. }, _) =>
                PostNewPostView::announce(post, payload, waiting),
            (state, _) => NextView::OutOfTurn(state),
        }
    }

    fn command(&self) -> Command {
        match self {
            PostNewPost::Insert { post } => Command::Insert {
                collection: "post",
                record: Record::Post(post.clone()),
            },
            PostNewPost::UpdateUser { post } => Command::FindOneAndUpdate {
                kind: Kind::User,
                collection: "user",
                filter: match_one("username", post.author.as_str()),
                update: update("$push", "posts", FieldValue::Text(post.title.clone())),
                return_updated: true,
            },
            PostNewPost::EncodePost { post, .. } => Command::EncodeJson {
                record: Record::Post(post.clone()),
            },
            PostNewPost::CachePost { post, json, .. } => Command::CacheSet {
                key: make_post_key(post.author.as_str(), post.title.as_str()),
                value: json.clone(),
            },
            PostNewPost::EncodeUser { user, .. } => Command::EncodeJson {
                record: Record::User(user.clone()),
            },
            PostNewPost::CacheUser { user, json, .. } => Command::CacheSet {
                key: user.username.clone(),
                value: json.clone(),
            },
            PostNewPost::OpenChannel { .. } => Command::OpenChannel,
            PostNewPost::EncodeNotification { post, .. } => Command::EncodeJson {
                record: Record::Notification(Notification::NewPost(post.clone())),
            },
            PostNewPost::DeclareQueue { follower, .. } => Command::DeclareQueue {
                queue: follower.clone(),
            },
            PostNewPost::Publish { payload, follower, .. } => Command::Publish {
                exchange: "",
                routing_key: follower.clone(),
                payload: payload.clone(),
            },
        }
    }

    fn resume(self, reply: Reply) -> (next: Next<PostNewPost, Post>) {
        match (self, reply) {
            (PostNewPost::Insert { .. }, Reply::Failed(err)) => fail(
                "failed to insert post: ",
                err.as_str(),
            ),
            (PostNewPost::Insert { .. }, Reply::NotEncoded(err)) => fail(
                "failed to insert post: ",
                err.as_str(),
            ),
            (PostNewPost::Insert { post }, Reply::Done) => ask(
                PostNewPost::UpdateUser { post },
            ),
            (PostNewPost::UpdateUser { .. }, Reply::Failed(_)) => refuse(
                Status::InternalServerError,
                "failed to update user".to_string(),
            ),
            (PostNewPost::UpdateUser { post }, Reply::Found(None)) => refuse(
                Status::BadRequest,
                "user ".to_string().concat(post.author.as_str()).concat(" not found"),
            ),
            (PostNewPost::UpdateUser { post }, Reply::Found(Some(Record::User(user)))) =>
                ask(PostNewPost::EncodePost { post, user }),
            (PostNewPost::EncodePost { .. }, Reply::Failed(err)) => fail(
                "failed to serialize post: ",
                err.as_str(),
            ),
            (PostNewPost::EncodePost { post, user }, Reply::Encoded(json)) => ask(
                PostNewPost::CachePost { post, user, json },
            ),
            (PostNewPost::CachePost { .. }, Reply::Failed(err)) => fail(
                "failed to insert post into redis cache: ",
                err.as_str(),
            ),
            (PostNewPost::CachePost { post, user, .. }, Reply::Done) => ask(
                PostNewPost::EncodeUser { post, user },
            ),
            (PostNewPost::EncodeUser { .. }, Reply::Failed(err)) => fail(
                "failed to serialize user: ",
                err.as_str(),
            ),
            (PostNewPost::EncodeUser { post, user }, Reply::Encoded(json)) => ask(
                PostNewPost::CacheUser { post, user, json },
            ),
            (PostNewPost::CacheUser { .. }, Reply::Failed(err)) => fail(
                "failed to insert user into redis cache: ",
                err.as_str(),
            ),
            (PostNewPost::CacheUser { post, user, .. }, Reply::Done) => ask(
                PostNewPost::OpenChannel { post, followers: user.followers },
            ),
            (PostNewPost::OpenChannel { .. }, Reply::Failed(err)) => fail(
                "failed to create rabbitmq channel: ",
                err.as_str(),
            ),
            (PostNewPost::OpenChannel { post, followers }, Reply::Done) => ask(
                PostNewPost::EncodeNotification { post, followers },
            ),
            (PostNewPost::EncodeNotification { .. }, Reply::Failed(err)) => fail(
                "failed to serialize post notification: ",
                err.as_str(),
            ),
            (PostNewPost::EncodeNotification { post, followers }, Reply::Encoded(payload)) =>
                PostNewPost::announce(post, payload, last_first(followers)),
            (PostNewPost::DeclareQueue { .. }, Reply::Failed(err)) => fail(
                "failed to declare queue: ",
                err.as_str(),
            ),
            (PostNewPost::DeclareQueue { post, payload, follower, waiting }, Reply::Done) =>
                ask(PostNewPost::Publish { post, payload, follower, waiting }),
            (PostNewPost::Publish { .. }, Reply::Failed(err)) => fail(
                "failed to publish post to friends: ",
                err.as_str(),
            ),
            (PostNewPost::Publish { post, payload, waiting, .. }, Reply::Done) =>
                PostNewPost::announce(post, payload, waiting),
            (state, _) => out_of_turn(state),
        }
    }
}

/// Starts to publish a post today.
pub fn post_new_post(username: String, new_post: NewPost) -> (handler: PostNewPost)
    ensures
        exists|date: Date|
            handler.deep_view() == (PostNewPostView::Insert {
                post: #[trigger] PostView::published(
                    new_post.title@,
                    new_post.content@,
                    username@,
                    date,
                ),
            }),
{
    PostNewPost::begin(username, new_post, today())
}

/// Likes a post: adds it to the posts that the liker likes, counts the like, and
/// notifies the user whose post it is.
#[derive(Debug)]
pub enum PostPostLike {
    UpdateUser { username: String, title: String, liker: String },
    UpdatePost { username: String, title: String, user: User },
    EncodeNotification { username: String, title: String, user: User },
    OpenChannel { username: String, payload: Vec<u8> },
    Publish { username: String, payload: Vec<u8> },
}

/// The mathematical content of a [`PostPostLike`].
pub enum PostPostLikeView {
    UpdateUser { username: Seq<char>, title: Seq<char>, liker: Seq<char> },
    UpdatePost { username: Seq<char>, title: Seq<char>, user: UserView },
    EncodeNotification { username: Seq<char>, title: Seq<char>, user: UserView },
    OpenChannel { username: Seq<char>, payload: Seq<u8> },
    Publish { username: Seq<char>, payload: Seq<u8> },
}

impl DeepView for PostPostLike {
    type V = PostPostLikeView;

    open spec fn deep_view(&self) -> PostPostLikeView {
        match self {
            PostPostLike::UpdateUser { username, title, liker } => PostPostLikeView::UpdateUser {
                username: username@,
                title: title@,
                liker: liker@,
            },
            PostPostLike::UpdatePost { username, title, user } => PostPostLikeView::UpdatePost {
                username: username@,
                title: title@,
                user: user.deep_view(),
            },
            PostPostLike::EncodeNotification { username, title, user } =>
                PostPostLikeView::EncodeNotification {
                username: username@,
                title: title@,
                user: user.deep_view(),
            },
            PostPostLike::OpenChannel { username, payload } => PostPostLikeView::OpenChannel {
                username: username@,
                payload: payload@,
            },
            PostPostLike::Publish { username, payload } => PostPostLikeView::Publish {
                username: username@,
                payload: payload@,
            },
        }
    }
}

impl Handler for PostPostLike {
    type Answer = ();

    open spec fn pending(state: PostPostLikeView) -> CommandView {
        match state {
            PostPostLikeView::UpdateUser { username, title, liker } =>
                CommandView::FindOneAndUpdate {
                kind: Kind::User,
                collection: "user"@,
                filter: text_field("username"@, liker),
                update: operation(
                    "$push"@,
                    "likes_posts"@,
                    FieldView::Texts(seq![username, title]),
                ),
                return_updated: true,
            },
            PostPostLikeView::UpdatePost { username, title, .. } =>
                CommandView::FindOneAndUpdate {
                kind: Kind::Post,
                collection: "post"@,
                filter: text_field("author"@, username) + text_field("title"@, title),
                update: operation("$inc"@, "number_of_likes"@, FieldView::Int(1)),
                return_updated: false,
            },
            PostPostLikeView::EncodeNotification { title, user, .. } =>
                CommandView::EncodeJson {
                record: RecordView::Notification(
                    NotificationView::NewPostLike { title, liker: user.username },
                ),
            },
            PostPostLikeView::OpenChannel { .. } => CommandView::OpenChannel,
            PostPostLikeView::Publish { username, payload } => CommandView::Publish {
                exchange: ""@,
                routing_key: username,
                payload,
            },
        }
    }

    open spec fn complaint(state: PostPostLikeView, err: Seq<char>) -> Seq<char> {
        match state {
            PostPostLikeView::UpdateUser { .. } => "failed to like post: "@ + err,
            PostPostLikeView::UpdatePost { .. } => "failed to like post: "@ + err,
            PostPostLikeView::EncodeNotification { .. } => "failed to serialize notification: "@
                + err,
            PostPostLikeView::OpenChannel { .. } => "failed to create rabbitmq channel: "@
                + err,
            PostPostLikeView::Publish { .. } => "failed to publish notification: "@ + err,
        }
    }

    open spec fn accepted(state: PostPostLikeView, reply: ReplyView) -> NextView<
        PostPostLikeView,
        (),
    > {
        match (state, reply) {
            (
                PostPostLikeView::UpdateUser { username, title, .. },
                ReplyView::Found(Some(RecordView::User(user))),
            ) => NextView::Ask(PostPostLikeView::UpdatePost { username, title, user }),
            (PostPostLikeView::UpdateUser { liker, .. }, _) => NextView::Respond(
                Err(
                    FailureView {
                        status: Status::BadRequest,
                        message: "user "@ + liker + " not found"@,
                    },
                ),
            ),
            (PostPostLikeView::UpdatePost { username, title, user }, _) => NextView::Ask(
                PostPostLikeView::EncodeNotification { username, title, user },
            ),
            (
                PostPostLikeView::EncodeNotification { username, .. },
                ReplyView::Encoded(payload),
            ) => NextView::Ask(PostPostLikeView::OpenChannel { username, payload }),
            (PostPostLikeView::OpenChannel { username, payload }, _) => NextView::Ask(
                PostPostLikeView::Publish { username, payload },
            ),
            (PostPostLikeView::Publish { .. }, _) => NextView::Respond(Ok(())),
            (state, _) => NextView::OutOfTurn(state),
        }
    }

    fn command(&self) -> Command {
        match self {
            PostPostLike::UpdateUser { username, title, liker } => {
                let mut pair: Vec<String> = Vec::new();
                pair.push(username.clone());
                pair.push(title.clone());
                assert(pair.deep_view() =~= seq![username@, title@]);
                Command::FindOneAndUpdate {
                    kind: Kind::User,
                    collection: "user",
                    filter: match_one("username", liker.as_str()),
                    update: update("$push", "likes_posts", FieldValue::Texts(pair)),
                    return_updated: true,
                }
            },
            PostPostLike::UpdatePost { username, title, .. } => Command::FindOneAndUpdate {
                kind: Kind::Post,
                collection: "post",
                filter: match_author_and_title(username.as_str(), title.as_str()),
                update: update("$inc", "number_of_likes", FieldValue::Int(1)),
                return_updated: false,
            },
            PostPostLike::EncodeNotification { title, user, .. } => Command::EncodeJson {
                record: Record::Notification(
                    Notification::NewPostLike(
                        NewPostLike { liker: user.username.clone(), title: title.clone() },
                    ),
                ),
            },
            PostPostLike::OpenChannel { .. } => Command::OpenChannel,
            PostPostLike::Publish { username, payload } => Command::Publish {
                exchange: "",
                routing_key: username.clone(),
                payload: payload.clone(),
            },
        }
    }

    fn resume(self, reply: Reply) -> (next: Next<PostPostLike, ()>) {
        match (self, reply) {
            (PostPostLike::UpdateUser { .. }, Reply::Failed(err)) => fail(
                "failed to like post: ",
                err.as_str(),
            ),
            (PostPostLike::UpdateUser { liker, .. }, Reply::Found(None)) => refuse(
                Status::BadRequest,
                "user ".to_string().concat(liker.as_str()).concat(" not found"),
            ),
            (
                PostPostLike::UpdateUser { username, title, .. },
                Reply::Found(Some(Record::User(user))),
            ) => ask(PostPostLike::UpdatePost { username, title, user }),
            (PostPostLike::UpdatePost { .. }, Reply::Failed(err)) => fail(
                "failed to like post: ",
                err.as_str(),
            ),
            (PostPostLike::UpdatePost { username, title, user }, Reply::Found(None)) =>
                ask(PostPostLike::EncodeNotification { username, title, user }),
            (
                PostPostLike::UpdatePost { username, title, user },
                Reply::Found(Some(Record::Post(_))),
            ) => ask(PostPostLike::EncodeNotification { username, title, user }),
            (PostPostLike::EncodeNotification { .. }, Reply::Failed(err)) => fail(
                "failed to serialize notification: ",
                err.as_str(),
            ),
            (PostPostLike::EncodeNotification { username, .. }, Reply::Encoded(payload)) =>
                ask(PostPostLike::OpenChannel { username, payload }),
            (PostPostLike::OpenChannel { .. }, Reply::Failed(err)) => fail(
                "failed to create rabbitmq channel: ",
                err.as_str(),
            ),
            (PostPostLike::OpenChannel { username, payload }, Reply::Done) => ask(
                PostPostLike::Publish { username, payload },
            ),
            (PostPostLike::Publish { .. }, Reply::Failed(err)) => fail(
                "failed to publish notification: ",
                err.as_str(),
            ),
            (PostPostLike::Publish { .. }, Reply::Done) => respond(()),
            (state, _) => out_of_turn(state),
        }
    }
}

/// Starts to like the post of `username` with this title.
pub fn post_post_like(username: String, title: String, like: Like) -> (handler: PostPostLike)
    ensures
        handler.deep_view() == (PostPostLikeView::UpdateUser {
            username: username@,
            title: title@,
            liker: like.liker@,
        }),
{
    PostPostLike::UpdateUser { username, title, liker: like.liker }
}

/// The filter that asks for a post by its author and title.
pub(crate) fn match_author_and_title(author: &str, title: &str) -> (filter: Document)
    ensures
        document_fields(filter) == text_field("author"@, author@) + text_field(
            "title"@,
            title@,
        ),
{
    proof {
        reveal_strlit("author");
        reveal_strlit("title");
        assert("author"@.len() != "title"@.len());
    }
    match_two("author", author, "title", title)
}

/// The fault of a cached value that is no post because of its type.
pub open spec fn not_a_post() -> Seq<char> {
    "wrong type"@
}

/// The fault of cached bytes that cannot be decoded as a post.
pub open spec fn undecodable_post(err: Seq<char>) -> Seq<char> {
    detailed("error deserializing into post"@, err)
}

impl Post {
    /// The JSON of the post that a cached value holds, or what is wrong with
    /// the value.
    pub fn from_redis_value(value: CacheValue) -> (json: Result<Vec<u8>, Fault>)
        ensures
            value matches CacheValue::Data(bytes) ==> json == Ok::<Vec<u8>, Fault>(bytes),
            !(value is Data) ==> (json matches Err(fault) && fault.deep_view() == (FaultView {
                kind: FaultKind::TypeError,
                text: not_a_post(),
            })),
            !(value is Data) ==> (json matches Err(fault) && fault.kind == FaultKind::TypeError
                && fault.text@ == "wrong type"@),
    {
        match value {
            CacheValue::Data(bytes) => Ok(bytes),
            _ => Err(described_fault(FaultKind::TypeError, "wrong type")),
        }
    }

    /// What is wrong with cached bytes that cannot be decoded as a post.
    pub fn undecodable(err: String) -> (fault: Fault)
        ensures
            fault.deep_view() == (FaultView {
                kind: FaultKind::Serialize,
                text: undecodable_post(err@),
            }),
            fault.kind == FaultKind::Serialize,
            fault.text@ == "error deserializing into post"@ + ": "@ + err@,
    {
        detailed_fault(FaultKind::Serialize, "error deserializing into post", err)
    }
}

} // verus!
