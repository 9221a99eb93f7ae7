//! What clients are told where something fails, word for word, and which replies
//! are taken for which commands.
use vstd::prelude::*;

use crate::comment::{
    post_name, CommentView, GetPostComment, GetPostCommentView, PostCommentLike,
    PostCommentLikeView, PostNewComment, PostNewCommentView,
};
use crate::conversation::after;
use crate::dialogue::{
    fits, CacheValueView, CommandView, DeliveryView, NextView, RecordView, ReplyView,
};
use crate::follow::{PostUserFollow, PostUserFollowView};
use crate::notification::{GetUserNotification, GetUserNotificationView, NotificationView};
use crate::post::{
    not_a_post, undecodable_post, PostNewPost, PostNewPostView, PostPostLike, PostPostLikeView,
    PostView,
};
use crate::redis::detailed;
use crate::user::{
    not_a_user, undecodable_user, GetUser, GetUserView, PostNewUser, PostNewUserView, UserView,
};

verus! {

/// Whether an answer fails with status 500 and this message.
pub open spec fn fails_saying<S, A>(next: NextView<S, A>, message: Seq<char>) -> bool {
    next matches NextView::Respond(Err(failure)) && failure.status is InternalServerError
        && failure.message == message
}

/// Whether an answer fails with status 400 and this message.
pub open spec fn is_bad_request<S, A>(next: NextView<S, A>, message: Seq<char>) -> bool {
    next matches NextView::Respond(Err(failure)) && failure.status is BadRequest
        && failure.message == message
}

/// Whether an answer fails with status 404 and this message.
pub open spec fn is_not_found<S, A>(next: NextView<S, A>, message: Seq<char>) -> bool {
    next matches NextView::Respond(Err(failure)) && failure.status is NotFound
        && failure.message == message
}

/// The texts that messages are made of, word for word.
pub proof fn texts_are_written_out(author: Seq<char>, title: Seq<char>, err: Seq<char>)
    ensures
        post_name(author, title) == "post "@ + author + "/"@ + title,
        not_a_user() == "incorrect type to turn into User"@,
        undecodable_user(err) == "failed to parse redis bytes into a User"@ + ": "@ + err,
        not_a_post() == "wrong type"@,
        undecodable_post(err) == "error deserializing into post"@ + ": "@ + err,
        detailed(title, err) == title + ": "@ + err,
{
}

/// Registration: what the client is told where a command fails.
pub proof fn registration_failures_are_told(
    user: UserView,
    err: Seq<char>,
)
    ensures
        fails_saying(
            after::<PostNewUser>(PostNewUserView::Insert { user }, ReplyView::Failed(err)),
            "failed to insert user: "@ + err,
        ),
{
}

/// Looking up a user: what the client is told where a command fails.
pub proof fn lookup_failures_are_told(
    username: Seq<char>,
    user: UserView,
    json: Seq<u8>,
    err: Seq<char>,
)
    ensures
        fails_saying(
            after::<GetUser>(GetUserView::CacheGet { username }, ReplyView::Failed(err)),
            "failed to fetch user from redis: "@ + err,
        ),
        fails_saying(
            after::<GetUser>(GetUserView::Decode { json }, ReplyView::Failed(err)),
            "failed to fetch user from redis: "@ + (
            "failed to parse redis bytes into a User"@ + ": "@ + err),
        ),
        fails_saying(
            after::<GetUser>(GetUserView::Find { username }, ReplyView::Failed(err)),
            "failed to find user: "@ + err,
        ),
        fails_saying(
            after::<GetUser>(GetUserView::Encode { username, user }, ReplyView::Failed(err)),
            "failed to serialize user: "@ + err,
        ),
        fails_saying(
            after::<GetUser>(
                GetUserView::CacheSet { username, user, json },
                ReplyView::Failed(err),
            ),
            "failed to insert user into redis cache: "@ + err,
        ),
{
}

/// Following: what the client is told where a command fails.
pub proof fn follow_failures_are_told(
    username: Seq<char>,
    follower: Seq<char>,
    user: UserView,
    payload: Seq<u8>,
    json: Seq<u8>,
    err: Seq<char>,
)
    ensures
        fails_saying(
            after::<PostUserFollow>(
                PostUserFollowView::UpdateUser { username, follower },
                ReplyView::Failed(err),
            ),
            "failed to follow: "@ + err,
        ),
        fails_saying(
            after::<PostUserFollow>(
                PostUserFollowView::EncodeNotification { username, follower, user },
                ReplyView::Failed(err),
            ),
            "failed to serialize new follower: "@ + err,
        ),
        fails_saying(
            after::<PostUserFollow>(
                PostUserFollowView::OpenChannel { username, user, payload },
                ReplyView::Failed(err),
            ),
            "failed to create rabbitmq channel: "@ + err,
        ),
        fails_saying(
            after::<PostUserFollow>(
                PostUserFollowView::Publish { username, user, payload },
                ReplyView::Failed(err),
            ),
            "failed to publish to rabbitmq: "@ + err,
        ),
        fails_saying(
            after::<PostUserFollow>(
                PostUserFollowView::EncodeUser { username, user },
                ReplyView::Failed(err),
            ),
            "failed to serialize user: "@ + err,
        ),
        fails_saying(
            after::<PostUserFollow>(
                PostUserFollowView::CacheUser { username, json },
                ReplyView::Failed(err),
            ),
            "failed update redis: "@ + err,
        ),
{
}

/// Publishing: what the client is told where a command fails.
pub proof fn publication_failures_are_told(
    post: PostView,
    user: UserView,
    followers: Seq<Seq<char>>,
    follower: Seq<char>,
    waiting: Seq<Seq<char>>,
    payload: Seq<u8>,
    json: Seq<u8>,
    err: Seq<char>,
)
    ensures
        fails_saying(
            after::<PostNewPost>(PostNewPostView::Insert { post }, ReplyView::Failed(err)),
            "failed to insert post: "@ + err,
        ),
        fails_saying(
            after::<PostNewPost>(PostNewPostView::UpdateUser { post }, ReplyView::Failed(err)),
            "failed to update user"@,
        ),
        fails_saying(
            after::<PostNewPost>(
                PostNewPostView::EncodePost { post, user },
                ReplyView::Failed(err),
            ),
            "failed to serialize post: "@ + err,
        ),
        fails_saying(
            after::<PostNewPost>(
                PostNewPostView::CachePost { post, user, json },
                ReplyView::Failed(err),
            ),
            "failed to insert post into redis cache: "@ + err,
        ),
        fails_saying(
            after::<PostNewPost>(
                PostNewPostView::EncodeUser { post, user },
                ReplyView::Failed(err),
            ),
            "failed to serialize user: "@ + err,
        ),
        fails_saying(
            after::<PostNewPost>(
                PostNewPostView::CacheUser { post, user, json },
                ReplyView::Failed(err),
            ),
            "failed to insert user into redis cache: "@ + err,
        ),
        fails_saying(
            after::<PostNewPost>(
                PostNewPostView::OpenChannel { post, followers },
                ReplyView::Failed(err),
            ),
            "failed to create rabbitmq channel: "@ + err,
        ),
        fails_saying(
            after::<PostNewPost>(
                PostNewPostView::EncodeNotification { post, followers },
                ReplyView::Failed(err),
            ),
            "failed to serialize post notification: "@ + err,
        ),
        fails_saying(
            after::<PostNewPost>(
                PostNewPostView::DeclareQueue { post, payload, follower, waiting },
                ReplyView::Failed(err),
            ),
            "failed to declare queue: "@ + err,
        ),
        fails_saying(
            after::<PostNewPost>(
                PostNewPostView::Publish { post, payload, follower, waiting },
                ReplyView::Failed(err),
            ),
            "failed to publish post to friends: "@ + err,
        ),
{
}

/// Liking a post: what the client is told where a command fails.
pub proof fn post_like_failures_are_told(
    username: Seq<char>,
    title: Seq<char>,
    liker: Seq<char>,
    user: UserView,
    payload: Seq<u8>,
    err: Seq<char>,
)
    ensures
        fails_saying(
            after::<PostPostLike>(
                PostPostLikeView::UpdateUser { username, title, liker },
                ReplyView::Failed(err),
            ),
            "failed to like post: "@ + err,
        ),
        fails_saying(
            after::<PostPostLike>(
                PostPostLikeView::UpdatePost { username, title, user },
                ReplyView::Failed(err),
            ),
            "failed to like post: "@ + err,
        ),
        fails_saying(
            after::<PostPostLike>(
                PostPostLikeView::EncodeNotification { username, title, user },
                ReplyView::Failed(err),
            ),
            "failed to serialize notification: "@ + err,
        ),
        fails_saying(
            after::<PostPostLike>(
                PostPostLikeView::OpenChannel { username, payload },
                ReplyView::Failed(err),
            ),
            "failed to create rabbitmq channel: "@ + err,
        ),
        fails_saying(
            after::<PostPostLike>(
                PostPostLikeView::Publish { username, payload },
                ReplyView::Failed(err),
            ),
            "failed to publish notification: "@ + err,
        ),
{
}

/// Listing comments: what the client is told where a command fails.
pub proof fn listing_failures_are_told(
    username: Seq<char>,
    post_title: Seq<char>,
    json: Seq<u8>,
    comments: Seq<CommentView>,
    err: Seq<char>,
)
    ensures
        fails_saying(
            after::<GetPostComment>(
                GetPostCommentView::CacheGet { username, post_title },
                ReplyView::Failed(err),
            ),
            "failed to get post from redis: "@ + err,
        ),
        fails_saying(
            after::<GetPostComment>(
                GetPostCommentView::DecodePost { username, post_title, json },
                ReplyView::Failed(err),
            ),
            "failed to get post from redis: "@ + ("error deserializing into post"@ + ": "@ + err),
        ),
        fails_saying(
            after::<GetPostComment>(
                GetPostCommentView::FindPost { username, post_title },
                ReplyView::Failed(err),
            ),
            "failed to find post: "@ + err,
        ),
        fails_saying(
            after::<GetPostComment>(
                GetPostCommentView::FindComments { username, post_title },
                ReplyView::Failed(err),
            ),
            "failed to find comments: "@ + err,
        ),
        fails_saying(
            after::<GetPostComment>(
                GetPostCommentView::NextComment { comments },
                ReplyView::Failed(err),
            ),
            "failed to get comment: "@ + err,
        ),
{
}

/// Commenting: what the client is told where a command fails.
pub proof fn comment_failures_are_told(
    comment: CommentView,
    found: Option<PostView>,
    post: PostView,
    payload: Seq<u8>,
    json: Seq<u8>,
    err: Seq<char>,
)
    ensures
        fails_saying(
            after::<PostNewComment>(
                PostNewCommentView::UpdatePost { comment },
                ReplyView::Failed(err),
            ),
            "failed to insert comment into post: "@ + err,
        ),
        fails_saying(
            after::<PostNewComment>(
                PostNewCommentView::Insert { comment, found },
                ReplyView::Failed(err),
            ),
            "failed to insert comment into mongo: "@ + err,
        ),
        fails_saying(
            after::<PostNewComment>(
                PostNewCommentView::OpenChannel { comment, post },
                ReplyView::Failed(err),
            ),
            "failed to create rabbitmq channel: "@ + err,
        ),
        fails_saying(
            after::<PostNewComment>(
                PostNewCommentView::EncodeNotification { comment, post },
                ReplyView::Failed(err),
            ),
            "failed to serialize notification: "@ + err,
        ),
        fails_saying(
            after::<PostNewComment>(
                PostNewCommentView::Publish { comment, post, payload },
                ReplyView::Failed(err),
            ),
            "failed to publish notification: "@ + err,
        ),
        fails_saying(
            after::<PostNewComment>(
                PostNewCommentView::EncodePost { comment, post },
                ReplyView::Failed(err),
            ),
            "failed to serialize post: "@ + err,
        ),
        fails_saying(
            after::<PostNewComment>(
                PostNewCommentView::CachePost { comment, json },
                ReplyView::Failed(err),
            ),
            "failed to insert post into redis cache: "@ + err,
        ),
{
}

/// Liking a comment: what the client is told where a command fails.
pub proof fn comment_like_failures_are_told(
    user_id: Seq<char>,
    post_title: Seq<char>,
    comment_title: Seq<char>,
    liker: Seq<char>,
    comment: CommentView,
    payload: Seq<u8>,
    err: Seq<char>,
)
    ensures
        fails_saying(
            after::<PostCommentLike>(
                PostCommentLikeView::UpdateComment { user_id, post_title, comment_title, liker },
                ReplyView::Failed(err),
            ),
            "failed to like comment: "@ + err,
        ),
        fails_saying(
            after::<PostCommentLike>(
                PostCommentLikeView::OpenChannel { comment, liker },
                ReplyView::Failed(err),
            ),
            "failed to create rabbitmq channel: "@ + err,
        ),
        fails_saying(
            after::<PostCommentLike>(
                PostCommentLikeView::EncodeNotification { comment, liker },
                ReplyView::Failed(err),
            ),
            "failed to serialize notification: "@ + err,
        ),
        fails_saying(
            after::<PostCommentLike>(
                PostCommentLikeView::Publish { comment, payload },
                ReplyView::Failed(err),
            ),
            "failed to publish notification: "@ + err,
        ),
        fails_saying(
            after::<PostCommentLike>(
                PostCommentLikeView::EncodeComment { comment },
                ReplyView::Failed(err),
            ),
            "failed to serialize comment: "@ + err,
        ),
{
}

/// Taking notifications: what the client is told where a command fails.
pub proof fn notification_failures_are_told(
    username: Seq<char>,
    received: Seq<NotificationView>,
    delivery: DeliveryView,
    data: Seq<u8>,
    err: Seq<char>,
)
    ensures
        fails_saying(
            after::<GetUserNotification>(
                GetUserNotificationView::OpenChannel { username },
                ReplyView::Failed(err),
            ),
            "failed to create rabbitmq channel: "@ + err,
        ),
        fails_saying(
            after::<GetUserNotification>(
                GetUserNotificationView::Fetch { username, received },
                ReplyView::Failed(err),
            ),
            "failed to get next notification: "@ + err,
        ),
        fails_saying(
            after::<GetUserNotification>(
                GetUserNotificationView::Acknowledge { username, received, delivery },
                ReplyView::Failed(err),
            ),
            "failed to ack notification: "@ + err,
        ),
        fails_saying(
            after::<GetUserNotification>(
                GetUserNotificationView::Decode { username, received, data },
                ReplyView::Failed(err),
            ),
            "failed to deserialize notification: "@ + err,
        ),
{
}

/// A record that cannot be encoded for the document store is told of.
pub proof fn unencodable_records_are_told(
    user: UserView,
    post: PostView,
    comment: CommentView,
    found: Option<PostView>,
    err: Seq<char>,
)
    ensures
        fails_saying(
            after::<PostNewUser>(PostNewUserView::Insert { user }, ReplyView::NotEncoded(err)),
            "failed to insert user: "@ + err,
        ),
        fails_saying(
            after::<PostNewPost>(PostNewPostView::Insert { post }, ReplyView::NotEncoded(err)),
            "failed to insert post: "@ + err,
        ),
        fails_saying(
            after::<PostNewComment>(
                PostNewCommentView::Insert { comment, found },
                ReplyView::NotEncoded(err),
            ),
            "failed to serialize comment: "@ + err,
        ),
{
}

/// A cached value of another type is told of.
pub proof fn foreign_cache_values_are_told(username: Seq<char>, post_title: Seq<char>)
    ensures
        fails_saying(
            after::<GetUser>(
                GetUserView::CacheGet { username },
                ReplyView::Cached(CacheValueView::Other),
            ),
            "failed to fetch user from redis: "@ + "incorrect type to turn into User"@,
        ),
        fails_saying(
            after::<GetPostComment>(
                GetPostCommentView::CacheGet { username, post_title },
                ReplyView::Cached(CacheValueView::Other),
            ),
            "failed to get post from redis: "@ + "wrong type"@,
        ),
{
}

/// What was looked for and not found is told of, by the name that the client
/// gave.
pub proof fn what_is_missing_is_told(
    username: Seq<char>,
    follower: Seq<char>,
    post: PostView,
    title: Seq<char>,
    liker: Seq<char>,
    comment: CommentView,
    comment_title: Seq<char>,
)
    ensures
        is_bad_request(
            after::<GetUser>(GetUserView::Find { username }, ReplyView::Found(None)),
            "user "@ + username + " not found"@,
        ),
        is_not_found(
            after::<PostUserFollow>(
                PostUserFollowView::UpdateUser { username, follower },
                ReplyView::Found(None),
            ),
            "user not found: "@ + username,
        ),
        is_bad_request(
            after::<PostNewPost>(PostNewPostView::UpdateUser { post }, ReplyView::Found(None)),
            "user "@ + post.author + " not found"@,
        ),
        is_bad_request(
            after::<PostPostLike>(
                PostPostLikeView::UpdateUser { username, title, liker },
                ReplyView::Found(None),
            ),
            "user "@ + liker + " not found"@,
        ),
        is_not_found(
            after::<GetPostComment>(
                GetPostCommentView::FindPost { username, post_title: title },
                ReplyView::Found(None),
            ),
            "post "@ + username + "/"@ + title + " not found"@,
        ),
        is_bad_request(
            after::<PostNewComment>(
                PostNewCommentView::Insert { comment, found: None },
                ReplyView::Done,
            ),
            "post "@ + comment.post_author + "/"@ + comment.post_title + " not found"@,
        ),
        is_not_found(
            after::<PostCommentLike>(
                PostCommentLikeView::UpdateComment {
                    user_id: username,
                    post_title: title,
                    comment_title,
                    liker,
                },
                ReplyView::Found(None),
            ),
            "comment "@ + username + "/"@ + title + "/"@ + comment_title + " not found"@,
        ),
{
}

/// Whether a reply is an optional record of the kind of `sample`.
pub open spec fn finds_like(reply: ReplyView, sample: RecordView) -> bool {
    match (reply, sample) {
        (ReplyView::Found(None), _) => true,
        (ReplyView::Found(Some(RecordView::User(_))), RecordView::User(_)) => true,
        (ReplyView::Found(Some(RecordView::Post(_))), RecordView::Post(_)) => true,
        (ReplyView::Found(Some(RecordView::Comment(_))), RecordView::Comment(_)) => true,
        (ReplyView::Found(Some(RecordView::Notification(_))), RecordView::Notification(_)) =>
            true,
        _ => false,
    }
}

/// Which replies are taken for a command: a failure always, and otherwise what
/// the command is to hand back, records only of the kind that was asked for.
pub proof fn replies_are_taken_for_their_commands(
    command: CommandView,
    reply: ReplyView,
    sample: RecordView,
)
    ensures
        reply is Failed ==> fits(command, reply),
        !(reply is Failed) ==> match command {
            CommandView::Insert { .. } => fits(command, reply) <==> (reply is Done
                || reply is NotEncoded),
            CommandView::FindOne { kind, .. } => kind == sample.kind() ==> (fits(command, reply)
                <==> finds_like(reply, sample)),
            CommandView::FindOneAndUpdate { kind, .. } => kind == sample.kind() ==> (fits(
                command,
                reply,
            ) <==> finds_like(reply, sample)),
            CommandView::Find { .. } => fits(command, reply) <==> reply is Done,
            CommandView::NextFound { kind } => kind == sample.kind() ==> (fits(command, reply)
                <==> finds_like(reply, sample)),
            CommandView::EncodeJson { .. } => fits(command, reply) <==> reply is Encoded,
            CommandView::DecodeJson { kind, .. } => kind == sample.kind() ==> (fits(
                command,
                reply,
            ) <==> (reply matches ReplyView::Decoded(record) && finds_like(
                ReplyView::Found(Some(record)),
                sample,
            ))),
            CommandView::CacheGet { .. } => fits(command, reply) <==> reply is Cached,
            CommandView::CacheSet { .. } => fits(command, reply) <==> reply is Done,
            CommandView::OpenChannel => fits(command, reply) <==> reply is Done,
            CommandView::DeclareQueue { .. } => fits(command, reply) <==> reply is Done,
            CommandView::Publish { .. } => fits(command, reply) <==> reply is Done,
            CommandView::Fetch { .. } => fits(command, reply) <==> reply is Fetched,
            CommandView::Acknowledge { .. } => fits(command, reply) <==> reply is Done,
        },
{
}

} // verus!
