use vstd::prelude::*;

use crate::dialogue::{
    ask, fail, out_of_turn, refuse, respond, Command, CommandView, FailureView, Handler, Kind,
    Next, NextView, Record, RecordView, Reply, ReplyView, Status,
};
use crate::mongo::{match_one, operation, text_field, update, FieldValue, FieldView};
use crate::notification::{NewFollower, Notification, NotificationView};
use crate::user::{User, UserView};

verus! {

/// What a client sends to follow a user.
#[derive(Debug, Clone)]
pub struct Follow {
    pub follower: String,
}

/// Follows a user: adds the follower to the user's record, notifies the user and
/// caches the record.
#[derive(Debug)]
pub enum PostUserFollow {
    UpdateUser { username: String, follower: String },
    EncodeNotification { username: String, follower: String, user: User },
    OpenChannel { username: String, user: User, payload: Vec<u8> },
    Publish { username: String, user: User, payload: Vec<u8> },
    EncodeUser { username: String, user: User },
    CacheUser { username: String, json: Vec<u8> },
}

/// The mathematical content of a [`PostUserFollow`].
pub enum PostUserFollowView {
    UpdateUser { username: Seq<char>, follower: Seq<char> },
    EncodeNotification { username: Seq<char>, follower: Seq<char>, user: UserView },
    OpenChannel { username: Seq<char>, user: UserView, payload: Seq<u8> },
    Publish { username: Seq<char>, user: UserView, payload: Seq<u8> },
    EncodeUser { username: Seq<char>, user: UserView },
    CacheUser { username: Seq<char>, json: Seq<u8> },
}

impl DeepView for PostUserFollow {
    type V = PostUserFollowView;

    open spec fn deep_view(&self) -> PostUserFollowView {
        match self {
            PostUserFollow::UpdateUser { username, follower } => PostUserFollowView::UpdateUser {
                username: username@,
                follower: follower@,
            },
            PostUserFollow::EncodeNotification { username, follower, user } =>
                PostUserFollowView::EncodeNotification {
                username: username@,
                follower: follower@,
                user: user.deep_view(),
            },
            PostUserFollow::OpenChannel { username, user, payload } =>
                PostUserFollowView::OpenChannel {
                username: username@,
                user: user.deep_view(),
                payload: payload@,
            },
            PostUserFollow::Publish { username, user, payload } => PostUserFollowView::Publish {
                username: username@,
                user: user.deep_view(),
                payload: payload@,
            },
            PostUserFollow::EncodeUser { username, user } => PostUserFollowView::EncodeUser {
                username: username@,
                user: user.deep_view(),
            },
            PostUserFollow::CacheUser { username, json } => PostUserFollowView::CacheUser {
                username: username@,
                json: json@,
            },
        }
    }
}

impl Handler for PostUserFollow {
    type Answer = ();

    open spec fn pending(state: PostUserFollowView) -> CommandView {
        match state {
            PostUserFollowView::UpdateUser { username, follower } =>
                CommandView::FindOneAndUpdate {
                kind: Kind::User,
                collection: "user"@,
                filter: text_field("username"@, username),
                update: operation("$push"@, "followers"@, FieldView::Text(follower)),
                return_updated: true,
            },
            PostUserFollowView::EncodeNotification { follower, .. } =>
                CommandView::EncodeJson {
                record: RecordView::Notification(
                    NotificationView::NewFollower { username: follower },
                ),
            },
            PostUserFollowView::OpenChannel { .. } => CommandView::OpenChannel,
            PostUserFollowView::Publish { user, payload, .. } => CommandView::Publish {
                exchange: ""@,
                routing_key: user.username,
                payload,
            },
            PostUserFollowView::EncodeUser { user, .. } => CommandView::EncodeJson {
                record: RecordView::User(user),
            },
            PostUserFollowView::CacheUser { username, json } => CommandView::CacheSet {
                key: username,
                value: json,
            },
        }
    }

    open spec fn complaint(state: PostUserFollowView, err: Seq<char>) -> Seq<char> {
        match state {
            PostUserFollowView::UpdateUser { .. } => "failed to follow: "@ + err,
            PostUserFollowView::EncodeNotification { .. } =>
                "failed to serialize new follower: "@ + err,
            PostUserFollowView::OpenChannel { .. } => "failed to create rabbitmq channel: "@
                + err,
            PostUserFollowView::Publish { .. } => "failed to publish to rabbitmq: "@ + err,
            PostUserFollowView::EncodeUser { .. } => "failed to serialize user: "@ + err,
            PostUserFollowView::CacheUser { .. } => "failed update redis: "@ + err,
        }
    }

    open spec fn accepted(state: PostUserFollowView, reply: ReplyView) -> NextView<
        PostUserFollowView,
        (),
    > {
        match (state, reply) {
            (
                PostUserFollowView::UpdateUser { username, follower },
                ReplyView::Found(Some(RecordView::User(user))),
            ) => NextView::Ask(
                PostUserFollowView::EncodeNotification { username, follower, user },
            ),
            (PostUserFollowView::UpdateUser { username, .. }, _) => NextView::Respond(
                Err(
                    FailureView {
                        status: Status::NotFound,
                        message: "user not found: "@ + username,
                    },
                ),
            ),
            (
                PostUserFollowView::EncodeNotification { username, user, .. },
                ReplyView::Encoded(payload),
            ) => NextView::Ask(PostUserFollowView::OpenChannel { username, user, payload }),
            (PostUserFollowView::OpenChannel { username, user, payload }, _) => NextView::Ask(
                PostUserFollowView::Publish { username, user, payload },
            ),
            (PostUserFollowView::Publish { username, user, .. }, _) => NextView::Ask(
                PostUserFollowView::EncodeUser { username, user },
            ),
            (PostUserFollowView::EncodeUser { username, .. }, ReplyView::Encoded(json)) =>
                NextView::Ask(PostUserFollowView::CacheUser { username, json }),
            (PostUserFollowView::CacheUser { .. }, _) => NextView::Respond(Ok(())),
            (state, _) => NextView::OutOfTurn(state),
        }
    }

    fn command(&self) -> Command {
        match self {
            PostUserFollow::UpdateUser { username, follower } => Command::FindOneAndUpdate {
                kind: Kind::User,
                collection: "user",
                filter: match_one("username", username.as_str()),
                update: update("$push", "followers", FieldValue::Text(follower.clone())),
                return_updated: true,
            },
            PostUserFollow::EncodeNotification { follower, .. } => Command::EncodeJson {
                record: Record::Notification(
                    Notification::NewFollower(NewFollower { username: follower.clone() }),
                ),
            },
            PostUserFollow::OpenChannel { .. } => Command::OpenChannel,
            PostUserFollow::Publish { user, payload, .. } => Command::Publish {
                exchange: "",
                routing_key: user.username.clone(),
                payload: payload.clone(),
            },
            PostUserFollow::EncodeUser { user, .. } => Command::EncodeJson {
                record: Record::User(user.clone()),
            },
            PostUserFollow::CacheUser { username, json } => Command::CacheSet {
                key: username.clone(),
                value: json.clone(),
            },
        }
    }

    fn resume(self, reply: Reply) -> (next: Next<PostUserFollow, ()>) {
        match (self, reply) {
            (PostUserFollow::UpdateUser { .. }, Reply::Failed(err)) => fail(
                "failed to follow: ",
                err.as_str(),
            ),
            (PostUserFollow::UpdateUser { username, .. }, Reply::Found(None)) => refuse(
                Status::NotFound,
                "user not found: ".to_string().concat(username.as_str()),
            ),
            (
                PostUserFollow::UpdateUser { username, follower },
                Reply::Found(Some(Record::User(user))),
            ) => ask(PostUserFollow::EncodeNotification { username, follower, user }),
            (PostUserFollow::EncodeNotification { .. }, Reply::Failed(err)) => fail(
                "failed to serialize new follower: ",
                err.as_str(),
            ),
            (
                PostUserFollow::EncodeNotification { username, user, .. },
                Reply::Encoded(payload),
            ) => ask(PostUserFollow::OpenChannel { username, user, payload }),
            (PostUserFollow::OpenChannel { .. }, Reply::Failed(err)) => fail(
                "failed to create rabbitmq channel: ",
                err.as_str(),
            ),
            (PostUserFollow::OpenChannel { username, user, payload }, Reply::Done) =>
                ask(PostUserFollow::Publish { username, user, payload }),
            (PostUserFollow::Publish { .. }, Reply::Failed(err)) => fail(
                "failed to publish to rabbitmq: ",
                err.as_str(),
            ),
            (PostUserFollow::Publish { username, user, .. }, Reply::Done) => ask(
                PostUserFollow::EncodeUser { username, user },
            ),
            (PostUserFollow::EncodeUser { .. }, Reply::Failed(err)) => fail(
                "failed to serialize user: ",
                err.as_str(),
            ),
            (PostUserFollow::EncodeUser { username, .. }, Reply::Encoded(json)) => ask(
                PostUserFollow::CacheUser { username, json },
            ),
            (PostUserFollow::CacheUser { .. }, Reply::Failed(err)) => fail(
                "failed update redis: ",
                err.as_str(),
            ),
            (PostUserFollow::CacheUser { .. }, Reply::Done) => respond(()),
            (state, _) => out_of_turn(state),
        }
    }
}

/// Starts to follow a user.
pub fn post_user_follow(username: String, follow: Follow) -> (handler: PostUserFollow)
    ensures
        handler.deep_view() == (PostUserFollowView::UpdateUser {
            username: username@,
            follower: follow.follower@,
        }),
{
    PostUserFollow::UpdateUser { username, follower: follow.follower }
}

} // verus!
