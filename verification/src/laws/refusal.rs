//! Requests that are refused: what is done for them until then, in order, and
//! the answer. Nothing more is done, whatever would be replied.
use vstd::prelude::*;

use crate::comment::{
    comment_titled, post_name, CommentView, GetPostComment, GetPostCommentView, PostCommentLike,
    PostCommentLikeView, PostNewComment, PostNewCommentView,
};
use crate::conversation::{
    answer_follows_last_reply, conversation, reached, rest_of_conversation,
};
use crate::dialogue::{
    internal_error, CacheValueView, CommandView, FailureView, Kind, RecordView, ReplyView, Status,
};
use crate::follow::{PostUserFollow, PostUserFollowView};
use crate::mongo::{operation, text_field, FieldView};
use crate::notification::{GetUserNotification, GetUserNotificationView};
use crate::post::{
    not_a_post, post_key, undecodable_post, PostNewPost, PostNewPostView, PostPostLike,
    PostPostLikeView, PostView,
};
use crate::user::{
    not_a_user, undecodable_user, user_in_cache, user_in_store, GetUser, GetUserView, PostNewUser,
    PostNewUserView, UserView,
};

verus! {

/// A user that neither the cache nor the document store has is reported as a
/// bad request, and nothing is written.
pub proof fn missing_user_is_refused(username: Seq<char>, replies: Seq<ReplyView>)
    requires
        replies.len() >= 2,
        replies[0] == ReplyView::Cached(CacheValueView::Nil),
        replies[1] == ReplyView::Found(None),
    ensures
        ({
            let talk = conversation::<GetUser>(GetUserView::CacheGet { username }, replies);
            &&& talk.asked == seq![user_in_cache(username), user_in_store(username)]
            &&& talk.outcome == Some(
                Err::<UserView, FailureView>(
                    FailureView {
                        status: Status::BadRequest,
                        message: "user "@ + username + " not found"@,
                    },
                ),
            )
        }),
{
    reveal_with_fuel(rest_of_conversation, 3);
}

/// A cached value that is no user because of its type fails the request; the
/// document store is not asked instead.
pub proof fn foreign_value_for_user_fails(username: Seq<char>, replies: Seq<ReplyView>)
    requires
        replies.len() >= 1,
        replies[0] == ReplyView::Cached(CacheValueView::Other),
    ensures
        ({
            let talk = conversation::<GetUser>(GetUserView::CacheGet { username }, replies);
            &&& talk.asked == seq![user_in_cache(username)]
            &&& talk.outcome == Some(
                Err::<UserView, FailureView>(
                    internal_error("failed to fetch user from redis: "@ + not_a_user()),
                ),
            )
        }),
{
    reveal_with_fuel(rest_of_conversation, 2);
}

/// Cached bytes that are no user fail the request; the document store is not
/// asked instead.
pub proof fn undecodable_user_fails(
    username: Seq<char>,
    json: Seq<u8>,
    err: Seq<char>,
    replies: Seq<ReplyView>,
)
    requires
        replies.len() >= 2,
        replies[0] == ReplyView::Cached(CacheValueView::Data(json)),
        replies[1] == ReplyView::Failed(err),
    ensures
        ({
            let talk = conversation::<GetUser>(GetUserView::CacheGet { username }, replies);
            &&& talk.asked == seq![
                user_in_cache(username),
                CommandView::DecodeJson { kind: Kind::User, bytes: json },
            ]
            &&& talk.outcome == Some(
                Err::<UserView, FailureView>(
                    internal_error("failed to fetch user from redis: "@ + undecodable_user(err)),
                ),
            )
        }),
{
    reveal_with_fuel(rest_of_conversation, 3);
}

/// Following a user that does not exist is refused: nobody is notified, and
/// the cache is left as it is.
pub proof fn follow_of_missing_user_is_refused(
    username: Seq<char>,
    follower: Seq<char>,
    replies: Seq<ReplyView>,
)
    requires
        replies.len() >= 1,
        replies[0] == ReplyView::Found(None),
    ensures
        ({
            let talk = conversation::<PostUserFollow>(
                PostUserFollowView::UpdateUser { username, follower },
                replies,
            );
            &&& talk.asked == seq![
                CommandView::FindOneAndUpdate {
                    kind: Kind::User,
                    collection: "user"@,
                    filter: text_field("username"@, username),
                    update: operation("$push"@, "followers"@, FieldView::Text(follower)),
                    return_updated: true,
                },
            ]
            &&& talk.outcome == Some(
                Err::<(), FailureView>(
                    FailureView {
                        status: Status::NotFound,
                        message: "user not found: "@ + username,
                    },
                ),
            )
        }),
{
    reveal_with_fuel(rest_of_conversation, 2);
}

/// Publishing for a user that does not exist is refused after the post has
/// been stored: nobody is notified, and the cache is left as it is.
pub proof fn post_of_missing_user_is_refused(post: PostView, replies: Seq<ReplyView>)
    requires
        replies.len() >= 2,
        replies[0] == ReplyView::Done,
        replies[1] == ReplyView::Found(None),
    ensures
        ({
            let talk = conversation::<PostNewPost>(PostNewPostView::Insert { post }, replies);
            &&& talk.asked == seq![
                CommandView::Insert { collection: "post"@, record: RecordView::Post(post) },
                CommandView::FindOneAndUpdate {
                    kind: Kind::User,
                    collection: "user"@,
                    filter: text_field("username"@, post.author),
                    update: operation("$push"@, "posts"@, FieldView::Text(post.title)),
                    return_updated: true,
                },
            ]
            &&& talk.outcome == Some(
                Err::<PostView, FailureView>(
                    FailureView {
                        status: Status::BadRequest,
                        message: "user "@ + post.author + " not found"@,
                    },
                ),
            )
        }),
{
    reveal_with_fuel(rest_of_conversation, 3);
}

/// A like by a user that does not exist is refused: the post is not counted
/// up, and nobody is notified.
pub proof fn like_by_missing_user_is_refused(
    username: Seq<char>,
    title: Seq<char>,
    liker: Seq<char>,
    replies: Seq<ReplyView>,
)
    requires
        replies.len() >= 1,
        replies[0] == ReplyView::Found(None),
    ensures
        ({
            let talk = conversation::<PostPostLike>(
                PostPostLikeView::UpdateUser { username, title, liker },
                replies,
            );
            &&& talk.asked == seq![
                CommandView::FindOneAndUpdate {
                    kind: Kind::User,
                    collection: "user"@,
                    filter: text_field("username"@, liker),
                    update: operation(
                        "$push"@,
                        "likes_posts"@,
                        FieldView::Texts(seq![username, title]),
                    ),
                    return_updated: true,
                },
            ]
            &&& talk.outcome == Some(
                Err::<(), FailureView>(
                    FailureView {
                        status: Status::BadRequest,
                        message: "user "@ + liker + " not found"@,
                    },
                ),
            )
        }),
{
    reveal_with_fuel(rest_of_conversation, 2);
}

/// The comments on a post that neither the cache nor the document store has
/// are not looked for.
pub proof fn comments_on_missing_post_are_refused(
    username: Seq<char>,
    post_title: Seq<char>,
    replies: Seq<ReplyView>,
)
    requires
        replies.len() >= 2,
        replies[0] == ReplyView::Cached(CacheValueView::Nil),
        replies[1] == ReplyView::Found(None),
    ensures
        ({
            let talk = conversation::<GetPostComment>(
                GetPostCommentView::CacheGet { username, post_title },
                replies,
            );
            &&& talk.asked == seq![
                CommandView::CacheGet { key: post_key(username, post_title) },
                CommandView::FindOne {
                    kind: Kind::Post,
                    collection: "post"@,
                    filter: text_field("author"@, username) + text_field("title"@, post_title),
                },
            ]
            &&& talk.outcome == Some(
                Err::<Seq<CommentView>, FailureView>(
                    FailureView {
                        status: Status::NotFound,
                        message: post_name(username, post_title) + " not found"@,
                    },
                ),
            )
        }),
{
    reveal_with_fuel(rest_of_conversation, 3);
}

/// A cached value that is no post because of its type fails the request; the
/// document store is not asked instead.
pub proof fn foreign_value_for_post_fails(
    username: Seq<char>,
    post_title: Seq<char>,
    replies: Seq<ReplyView>,
)
    requires
        replies.len() >= 1,
        replies[0] == ReplyView::Cached(CacheValueView::Other),
    ensures
        ({
            let talk = conversation::<GetPostComment>(
                GetPostCommentView::CacheGet { username, post_title },
                replies,
            );
            &&& talk.asked == seq![CommandView::CacheGet { key: post_key(username, post_title) }]
            &&& talk.outcome == Some(
                Err::<Seq<CommentView>, FailureView>(
                    internal_error("failed to get post from redis: "@ + not_a_post()),
                ),
            )
        }),
{
    reveal_with_fuel(rest_of_conversation, 2);
}

/// Cached bytes that are no post fail the request; the document store is not
/// asked instead.
pub proof fn undecodable_post_fails(
    username: Seq<char>,
    post_title: Seq<char>,
    json: Seq<u8>,
    err: Seq<char>,
    replies: Seq<ReplyView>,
)
    requires
        replies.len() >= 2,
        replies[0] == ReplyView::Cached(CacheValueView::Data(json)),
        replies[1] == ReplyView::Failed(err),
    ensures
        ({
            let talk = conversation::<GetPostComment>(
                GetPostCommentView::CacheGet { username, post_title },
                replies,
            );
            &&& talk.asked == seq![
                CommandView::CacheGet { key: post_key(username, post_title) },
                CommandView::DecodeJson { kind: Kind::Post, bytes: json },
            ]
            &&& talk.outcome == Some(
                Err::<Seq<CommentView>, FailureView>(
                    internal_error("failed to get post from redis: "@ + undecodable_post(err)),
                ),
            )
        }),
{
    reveal_with_fuel(rest_of_conversation, 3);
}

/// Commenting on a post that does not exist is refused after the comment has
/// been stored: nobody is notified, and the cache is left as it is.
pub proof fn comment_on_missing_post_is_refused(comment: CommentView, replies: Seq<ReplyView>)
    requires
        replies.len() >= 2,
        replies[0] == ReplyView::Found(None),
        replies[1] == ReplyView::Done,
    ensures
        ({
            let talk = conversation::<PostNewComment>(
                PostNewCommentView::UpdatePost { comment },
                replies,
            );
            &&& talk.asked == seq![
                CommandView::FindOneAndUpdate {
                    kind: Kind::Post,
                    collection: "post"@,
                    filter: text_field("author"@, comment.post_author) + text_field(
                        "title"@,
                        comment.post_title,
                    ),
                    update: operation("$push"@, "comments"@, FieldView::Text(comment.title)),
                    return_updated: true,
                },
                CommandView::Insert {
                    collection: "comment"@,
                    record: RecordView::Comment(comment),
                },
            ]
            &&& talk.outcome == Some(
                Err::<CommentView, FailureView>(
                    FailureView {
                        status: Status::BadRequest,
                        message: post_name(comment.post_author, comment.post_title)
                            + " not found"@,
                    },
                ),
            )
        }),
{
    reveal_with_fuel(rest_of_conversation, 3);
}

/// A like for a comment that does not exist is refused, and nobody is
/// notified.
pub proof fn like_of_missing_comment_is_refused(
    user_id: Seq<char>,
    post_title: Seq<char>,
    comment_title: Seq<char>,
    liker: Seq<char>,
    replies: Seq<ReplyView>,
)
    requires
        replies.len() >= 1,
        replies[0] == ReplyView::Found(None),
    ensures
        ({
            let talk = conversation::<PostCommentLike>(
                PostCommentLikeView::UpdateComment { user_id, post_title, comment_title, liker },
                replies,
            );
            &&& talk.asked == seq![
                CommandView::FindOneAndUpdate {
                    kind: Kind::Comment,
                    collection: "comment"@,
                    filter: comment_titled(user_id, post_title, comment_title),
                    update: operation("$addToSet"@, "likers"@, FieldView::Text(liker)),
                    return_updated: true,
                },
            ]
            &&& talk.outcome == Some(
                Err::<CommentView, FailureView>(
                    FailureView {
                        status: Status::NotFound,
                        message: "comment "@ + user_id + "/"@ + post_title + "/"@ + comment_title
                            + " not found"@,
                    },
                ),
            )
        }),
{
    reveal_with_fuel(rest_of_conversation, 2);
}

/// Whether the answer blames the client.
pub open spec fn blames_client<A>(outcome: Option<Result<A, FailureView>>) -> bool {
    outcome matches Some(Err(failure)) && failure.status != Status::InternalServerError
}

/// Registration never blames the client.
pub proof fn registration_never_blames(user: UserView, replies: Seq<ReplyView>)
    ensures
        !blames_client(
            conversation::<PostNewUser>(PostNewUserView::Insert { user }, replies).outcome,
        ),
{
    reveal_with_fuel(rest_of_conversation, 2);
}

/// Looking up a user blames the client exactly if neither the cache nor the
/// document store has the user.
pub proof fn lookup_blames_iff_missing(username: Seq<char>, replies: Seq<ReplyView>)
    ensures
        blames_client(
            conversation::<GetUser>(GetUserView::CacheGet { username }, replies).outcome,
        ) <==> {
            &&& replies.len() >= 2
            &&& replies[0] == ReplyView::Cached(CacheValueView::Nil)
            &&& replies[1] == ReplyView::Found(None)
        },
{
    reveal_with_fuel(rest_of_conversation, 5);
}

/// Following blames the client exactly if the user does not exist.
pub proof fn follow_blames_iff_missing(
    username: Seq<char>,
    follower: Seq<char>,
    replies: Seq<ReplyView>,
)
    ensures
        blames_client(
            conversation::<PostUserFollow>(
                PostUserFollowView::UpdateUser { username, follower },
                replies,
            ).outcome,
        ) <==> {
            &&& replies.len() >= 1
            &&& replies[0] == ReplyView::Found(None)
        },
{
    reveal_with_fuel(rest_of_conversation, 7);
}

/// Publishing blames the client exactly if the post was stored and its author
/// does not exist.
pub proof fn post_blames_iff_author_missing(post: PostView, replies: Seq<ReplyView>)
    ensures
        blames_client(
            conversation::<PostNewPost>(PostNewPostView::Insert { post }, replies).outcome,
        ) <==> {
            &&& replies.len() >= 2
            &&& replies[0] == ReplyView::Done
            &&& replies[1] == ReplyView::Found(None)
        },
{
    let start = PostNewPostView::Insert { post };
    let talk = conversation::<PostNewPost>(start, replies);
    reveal_with_fuel(rest_of_conversation, 3);
    if blames_client(talk.outcome) {
        answer_follows_last_reply::<PostNewPost>(start, replies);
        let last = (talk.asked.len() - 1) as nat;
        assert(reached::<PostNewPost>(start, replies, last)->0 is UpdateUser);
        reveal_with_fuel(reached, 3);
    }
}

/// Liking a post blames the client exactly if the liker does not exist.
pub proof fn post_like_blames_iff_liker_missing(
    username: Seq<char>,
    title: Seq<char>,
    liker: Seq<char>,
    replies: Seq<ReplyView>,
)
    ensures
        blames_client(
            conversation::<PostPostLike>(
                PostPostLikeView::UpdateUser { username, title, liker },
                replies,
            ).outcome,
        ) <==> {
            &&& replies.len() >= 1
            &&& replies[0] == ReplyView::Found(None)
        },
{
    reveal_with_fuel(rest_of_conversation, 6);
}

/// Listing comments blames the client exactly if neither the cache nor the
/// document store has the post.
pub proof fn listing_blames_iff_post_missing(
    username: Seq<char>,
    post_title: Seq<char>,
    replies: Seq<ReplyView>,
)
    ensures
        blames_client(
            conversation::<GetPostComment>(
                GetPostCommentView::CacheGet { username, post_title },
                replies,
            ).outcome,
        ) <==> {
            &&& replies.len() >= 2
            &&& replies[0] == ReplyView::Cached(CacheValueView::Nil)
            &&& replies[1] == ReplyView::Found(None)
        },
{
    let start = GetPostCommentView::CacheGet { username, post_title };
    let talk = conversation::<GetPostComment>(start, replies);
    reveal_with_fuel(rest_of_conversation, 3);
    if blames_client(talk.outcome) {
        answer_follows_last_reply::<GetPostComment>(start, replies);
        let last = (talk.asked.len() - 1) as nat;
        assert(reached::<GetPostComment>(start, replies, last)->0 is FindPost);
        reveal_with_fuel(reached, 3);
    }
}

/// Commenting blames the client exactly if the post does not exist and the
/// comment was stored.
pub proof fn comment_blames_iff_post_missing(comment: CommentView, replies: Seq<ReplyView>)
    ensures
        blames_client(
            conversation::<PostNewComment>(
                PostNewCommentView::UpdatePost { comment },
                replies,
            ).outcome,
        ) <==> {
            &&& replies.len() >= 2
            &&& replies[0] == ReplyView::Found(None)
            &&& replies[1] == ReplyView::Done
        },
{
    reveal_with_fuel(rest_of_conversation, 8);
}

/// Liking a comment blames the client exactly if the comment does not exist.
pub proof fn comment_like_blames_iff_missing(
    user_id: Seq<char>,
    post_title: Seq<char>,
    comment_title: Seq<char>,
    liker: Seq<char>,
    replies: Seq<ReplyView>,
)
    ensures
        blames_client(
            conversation::<PostCommentLike>(
                PostCommentLikeView::UpdateComment { user_id, post_title, comment_title, liker },
                replies,
            ).outcome,
        ) <==> {
            &&& replies.len() >= 1
            &&& replies[0] == ReplyView::Found(None)
        },
{
    reveal_with_fuel(rest_of_conversation, 6);
}

/// Taking notifications never blames the client.
pub proof fn notifications_never_blame(username: Seq<char>, replies: Seq<ReplyView>)
    ensures
        !blames_client(
            conversation::<GetUserNotification>(
                GetUserNotificationView::OpenChannel { username },
                replies,
            ).outcome,
        ),
{
    let start = GetUserNotificationView::OpenChannel { username };
    if conversation::<GetUserNotification>(start, replies).outcome is Some {
        answer_follows_last_reply::<GetUserNotification>(start, replies);
    }
}

} // verus!
