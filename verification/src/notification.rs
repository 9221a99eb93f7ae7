use vstd::prelude::*;

use crate::comment::{Comment, CommentView};
use crate::dialogue::{
    ask, fail, out_of_turn, respond, Command, CommandView, Delivery, DeliveryView, Handler, Kind,
    Next, NextView, Record, RecordView, Reply, ReplyView,
};
use crate::post::{Post, PostView};

verus! {

/// What a user is told about.
#[derive(Debug, Clone)]
pub enum Notification {
    NewPost(Post),
    NewPostLike(NewPostLike),
    NewFollower(NewFollower),
    NewComment(Comment),
    NewCommentLike(NewCommentLike),
}

#[derive(Debug, Clone)]
pub struct NewCommentLike {
    pub comment: Comment,
    pub liker: String,
}

#[derive(Debug, Clone)]
pub struct NewFollower {
    pub username: String,
}

#[derive(Debug, Clone)]
pub struct NewPostLike {
    pub title: String,
    pub liker: String,
}

/// The mathematical content of a [`Notification`].
pub enum NotificationView {
    NewPost(PostView),
    NewPostLike { title: Seq<char>, liker: Seq<char> },
    NewFollower { username: Seq<char> },
    NewComment(CommentView),
    NewCommentLike { comment: CommentView, liker: Seq<char> },
}

impl DeepView for Notification {
    type V = NotificationView;

    open spec fn deep_view(&self) -> NotificationView {
        match self {
            Notification::NewPost(post) => NotificationView::NewPost(post.deep_view()),
            Notification::NewPostLike(like) => NotificationView::NewPostLike {
                title: like.title@,
                liker: like.liker@,
            },
            Notification::NewFollower(follower) => NotificationView::NewFollower {
                username: follower.username@,
            },
            Notification::NewComment(comment) => NotificationView::NewComment(
                comment.deep_view(),
            ),
            Notification::NewCommentLike(like) => NotificationView::NewCommentLike {
                comment: like.comment.deep_view(),
                liker: like.liker@,
            },
        }
    }
}

/// Takes the notifications of a user out of the user's queue, until it is empty.
#[derive(Debug)]
pub enum GetUserNotification {
    OpenChannel { username: String },
    Fetch { username: String, received: Vec<Notification> },
    Acknowledge { username: String, received: Vec<Notification>, delivery: Delivery },
    Decode { username: String, received: Vec<Notification>, data: Vec<u8> },
}

/// The mathematical content of a [`GetUserNotification`].
pub enum GetUserNotificationView {
    OpenChannel { username: Seq<char> },
    Fetch { username: Seq<char>, received: Seq<NotificationView> },
    Acknowledge { username: Seq<char>, received: Seq<NotificationView>, delivery: DeliveryView },
    Decode { username: Seq<char>, received: Seq<NotificationView>, data: Seq<u8> },
}

impl DeepView for GetUserNotification {
    type V = GetUserNotificationView;

    open spec fn deep_view(&self) -> GetUserNotificationView {
        match self {
            GetUserNotification::OpenChannel { username } => GetUserNotificationView::OpenChannel {
                username: username@,
            },
            GetUserNotification::Fetch { username, received } => GetUserNotificationView::Fetch {
                username: username@,
                received: received.deep_view(),
            },
            GetUserNotification::Acknowledge { username, received, delivery } =>
                GetUserNotificationView::Acknowledge {
                username: username@,
                received: received.deep_view(),
                delivery: delivery.deep_view(),
            },
            GetUserNotification::Decode { username, received, data } =>
                GetUserNotificationView::Decode {
                username: username@,
                received: received.deep_view(),
                data: data@,
            },
        }
    }
}

impl Handler for GetUserNotification {
    type Answer = Vec<Notification>;

    open spec fn pending(state: GetUserNotificationView) -> CommandView {
        match state {
            GetUserNotificationView::OpenChannel { .. } => CommandView::OpenChannel,
            GetUserNotificationView::Fetch { username, .. } => CommandView::Fetch {
                queue: username,
            },
            GetUserNotificationView::Acknowledge { delivery, .. } => CommandView::Acknowledge {
                delivery_tag: delivery.delivery_tag,
            },
            GetUserNotificationView::Decode { data, .. } => CommandView::DecodeJson {
                kind: Kind::Notification,
                bytes: data,
            },
        }
    }

    open spec fn complaint(state: GetUserNotificationView, err: Seq<char>) -> Seq<char> {
        match state {
            GetUserNotificationView::OpenChannel { .. } =>
                "failed to create rabbitmq channel: "@ + err,
            GetUserNotificationView::Fetch { .. } => "failed to get next notification: "@ + err,
            GetUserNotificationView::Acknowledge { .. } => "failed to ack notification: "@
                + err,
            GetUserNotificationView::Decode { .. } => "failed to deserialize notification: "@
                + err,
        }
    }

    open spec fn accepted(state: GetUserNotificationView, reply: ReplyView) -> NextView<
        GetUserNotificationView,
        Seq<NotificationView>,
    > {
        match (state, reply) {
            (GetUserNotificationView::OpenChannel { username }, _) => NextView::Ask(
                GetUserNotificationView::Fetch { username, received: Seq::empty() },
            ),
            (
                GetUserNotificationView::Fetch { username, received },
                ReplyView::Fetched(Some(delivery)),
            ) => NextView::Ask(
                GetUserNotificationView::Acknowledge { username, received, delivery },
            ),
            (GetUserNotificationView::Fetch { received, .. }, _) => NextView::Respond(
                Ok(received),
            ),
            (GetUserNotificationView::Acknowledge { username, received, delivery }, _) =>
                NextView::Ask(
                GetUserNotificationView::Decode { username, received, data: delivery.data },
            ),
            (
                GetUserNotificationView::Decode { username, received, .. },
                ReplyView::Decoded(RecordView::Notification(notification)),
            ) => NextView::Ask(
                GetUserNotificationView::Fetch {
                    username,
                    received: received.push(notification),
                },
            ),
            (state, _) => NextView::OutOfTurn(state),
        }
    }

    fn command(&self) -> Command {
        match self {
            GetUserNotification::OpenChannel { .. } => Command::OpenChannel,
            GetUserNotification::Fetch { username, .. } => Command::Fetch {
                queue: username.clone(),
            },
            GetUserNotification::Acknowledge { delivery, .. } => Command::Acknowledge {
                delivery_tag: delivery.delivery_tag,
            },
            GetUserNotification::Decode { data, .. } => Command::DecodeJson {
                kind: Kind::Notification,
                bytes: data.clone(),
            },
        }
    }

    fn resume(self, reply: Reply) -> (next: Next<GetUserNotification, Vec<Notification>>) {
        match (self, reply) {
            (GetUserNotification::OpenChannel { .. }, Reply::Failed(err)) => fail(
                "failed to create rabbitmq channel: ",
                err.as_str(),
            ),
            (GetUserNotification::OpenChannel { username }, Reply::Done) => {
                let received: Vec<Notification> = Vec::new();
                assert(received.deep_view() =~= Seq::empty());
                ask(GetUserNotification::Fetch { username, received })
            },
            (GetUserNotification::Fetch { .. }, Reply::Failed(err)) => fail(
                "failed to get next notification: ",
                err.as_str(),
            ),
            (
                GetUserNotification::Fetch { username, received },
                Reply::Fetched(Some(delivery)),
            ) => ask(GetUserNotification::Acknowledge { username, received, delivery }),
            (GetUserNotification::Fetch { received, .. }, Reply::Fetched(None)) =>
                respond(received),
            (GetUserNotification::Acknowledge { .. }, Reply::Failed(err)) => fail(
                "failed to ack notification: ",
                err.as_str(),
            ),
            (
                GetUserNotification::Acknowledge { username, received, delivery },
                Reply::Done,
            ) => ask(
                GetUserNotification::Decode { username, received, data: delivery.data },
            ),
            (GetUserNotification::Decode { .. }, Reply::Failed(err)) => fail(
                "failed to deserialize notification: ",
                err.as_str(),
            ),
            (
                GetUserNotification::Decode { username, received, .. },
                Reply::Decoded(Record::Notification(notification)),
            ) => {
                let ghost before = received.deep_view();
                let mut received = received;
                received.push(notification);
                assert(received.deep_view() =~= before.push(notification.deep_view()));
                ask(GetUserNotification::Fetch { username, received })
            },
            (state, _) => out_of_turn(state),
        }
    }
}

/// Starts to take the notifications of a user.
pub fn get_user_notification(username: String) -> (handler: GetUserNotification)
    ensures
        handler.deep_view() == (GetUserNotificationView::OpenChannel { username: username@ }),
{
    GetUserNotification::OpenChannel { username }
}

} // verus!
