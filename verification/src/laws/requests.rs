//! From what a client sends to the first command: what goes out is made of what
//! came in.
use vstd::prelude::*;

use crate::comment::{
    get_post_comment, post_comment_like, post_new_comment, Comment, GetPostComment, NewComment,
    PostCommentLike, PostNewComment,
};
use crate::dialogue::{Command, Handler, Next, Record, Reply};
use crate::follow::{post_user_follow, Follow, PostUserFollow};
use crate::mongo::{document_fields, text_field, FieldView};
use crate::notification::{get_user_notification, GetUserNotification, Notification};
use crate::post::{
    post_new_post, post_post_like, Like, NewPost, PostNewPost, PostPostLike,
};
use crate::user::{get_user, post_new_user, GetUser, NewUser, PostNewUser, User};

verus! {

/// A registration asks to store a user with what the client sent, each text in
/// the field of its name, and answers with it once that is done.
pub proof fn registration_stores_what_was_sent(
    new_user: NewUser,
    handler: PostNewUser,
    command: Command,
    next: Next<PostNewUser, User>,
)
    requires
        call_ensures(post_new_user, (new_user,), handler),
        call_ensures(PostNewUser::command, (&handler,), command),
        call_ensures(PostNewUser::resume, (handler, Reply::Done), next),
    ensures
        command matches Command::Insert { collection, record: Record::User(user) } && {
            &&& collection@ == "user"@
            &&& user.name@ == new_user.name@
            &&& user.username@ == new_user.username@
            &&& user.email@ == new_user.email@
            &&& user.password@ == new_user.password@
            &&& user.followers@.len() == 0
            &&& user.following@.len() == 0
            &&& user.posts@.len() == 0
            &&& user.likes_posts@.len() == 0
            &&& user.likes_comments@.len() == 0
        },
        next matches Next::Respond(Ok(user)) && {
            &&& user.name@ == new_user.name@
            &&& user.username@ == new_user.username@
            &&& user.email@ == new_user.email@
            &&& user.password@ == new_user.password@
        },
{
    assert(command.deep_view() is Insert);
    assert(command.deep_view()->Insert_record is User);
    let user = command->Insert_record->User_0;
    assert(user.deep_view().followers.len() == user.followers@.len());
    assert(user.deep_view().following.len() == user.following@.len());
    assert(user.deep_view().posts.len() == user.posts@.len());
    assert(user.deep_view().likes_posts.len() == user.likes_posts@.len());
    assert(user.deep_view().likes_comments.len() == user.likes_comments@.len());
    assert(Reply::Done.deep_view() is Done);
    assert(next.deep_view() is Respond);
}

/// A publication asks to store a post with title and content as the client sent
/// them, by the user under whose name it is published.
pub proof fn publication_stores_what_was_sent(
    username: String,
    new_post: NewPost,
    handler: PostNewPost,
    command: Command,
)
    requires
        call_ensures(post_new_post, (username, new_post), handler),
        call_ensures(PostNewPost::command, (&handler,), command),
    ensures
        command matches Command::Insert { collection, record: Record::Post(post) } && {
            &&& collection@ == "post"@
            &&& post.title@ == new_post.title@
            &&& post.content@ == new_post.content@
            &&& post.author@ == username@
            &&& post.likes@.len() == 0
            &&& post.comments@.len() == 0
        },
{
    assert(command.deep_view() is Insert);
    assert(command.deep_view()->Insert_record is Post);
    let post = command->Insert_record->Post_0;
    assert(post.deep_view().likes.len() == post.likes@.len());
    assert(post.deep_view().comments.len() == post.comments@.len());
}

/// A comment asks, first, for the post that the client named to get the title
/// that the client sent; then it asks to store what the client sent, each text
/// in the field of its name, as a comment on that post.
pub proof fn comment_stores_what_was_sent(
    username: String,
    post_title: String,
    new_comment: NewComment,
    handler: PostNewComment,
    command: Command,
    reply: Reply,
    next: Next<PostNewComment, Comment>,
    then: PostNewComment,
    second: Command,
)
    requires
        call_ensures(post_new_comment, (username, post_title, new_comment), handler),
        call_ensures(PostNewComment::command, (&handler,), command),
        reply matches Reply::Found(found) && (found matches Some(record) ==> record is Post),
        call_ensures(PostNewComment::resume, (handler, reply), next),
        next == Next::<PostNewComment, Comment>::Ask(then),
        call_ensures(PostNewComment::command, (&then,), second),
    ensures
        command matches Command::FindOneAndUpdate {
            kind,
            collection,
            filter,
            update,
            return_updated,
        } && {
            &&& kind is Post
            &&& collection@ == "post"@
            &&& document_fields(filter) == seq![
                ("author"@, FieldView::Text(username@)),
                ("title"@, FieldView::Text(post_title@)),
            ]
            &&& document_fields(update) == seq![
                (
                    "$push"@,
                    FieldView::Nested(seq![("comments"@, FieldView::Text(new_comment.title@))]),
                ),
            ]
            &&& return_updated
        },
        second matches Command::Insert { collection, record: Record::Comment(comment) } && {
            &&& collection@ == "comment"@
            &&& comment.post_author@ == username@
            &&& comment.post_title@ == post_title@
            &&& comment.title@ == new_comment.title@
            &&& comment.content@ == new_comment.content@
            &&& comment.author@ == new_comment.author@
            &&& comment.likers@.len() == 0
        },
{
    assert(command.deep_view() is FindOneAndUpdate);
    let filter = text_field("author"@, username@) + text_field("title"@, post_title@);
    assert(filter =~= seq![
        ("author"@, FieldView::Text(username@)),
        ("title"@, FieldView::Text(post_title@)),
    ]);
    match reply {
        Reply::Found(None) => {},
        Reply::Found(Some(record)) => {
            assert(record.deep_view() is Post);
        },
        _ => {},
    }
    assert(next.deep_view() is Ask);
    assert(second.deep_view() is Insert);
    assert(second.deep_view()->Insert_record is Comment);
    let comment = second->Insert_record->Comment_0;
    assert(comment.deep_view().likers.len() == comment.likers@.len());
}

/// A lookup asks the cache for the username that the client named.
pub proof fn lookup_asks_for_named_user(username: String, handler: GetUser, command: Command)
    requires
        call_ensures(get_user, (username,), handler),
        call_ensures(GetUser::command, (&handler,), command),
    ensures
        command matches Command::CacheGet { key } && key@ == username@,
{
    assert(command.deep_view() is CacheGet);
}

/// A follow asks for the user that the client named to get the follower that
/// the client sent.
pub proof fn follow_names_user_and_follower(
    username: String,
    follow: Follow,
    handler: PostUserFollow,
    command: Command,
)
    requires
        call_ensures(post_user_follow, (username, follow), handler),
        call_ensures(PostUserFollow::command, (&handler,), command),
    ensures
        command matches Command::FindOneAndUpdate {
            kind,
            collection,
            filter,
            update,
            return_updated,
        } && {
            &&& kind is User
            &&& collection@ == "user"@
            &&& document_fields(filter) == seq![("username"@, FieldView::Text(username@))]
            &&& document_fields(update) == seq![
                (
                    "$push"@,
                    FieldView::Nested(seq![("followers"@, FieldView::Text(follow.follower@))]),
                ),
            ]
            &&& return_updated
        },
{
    assert(command.deep_view() is FindOneAndUpdate);
}

/// A like of a post asks for the liker that the client sent to get author and
/// title of the post that the client named.
pub proof fn post_like_names_liker_and_post(
    username: String,
    title: String,
    like: Like,
    handler: PostPostLike,
    command: Command,
)
    requires
        call_ensures(post_post_like, (username, title, like), handler),
        call_ensures(PostPostLike::command, (&handler,), command),
    ensures
        command matches Command::FindOneAndUpdate {
            kind,
            collection,
            filter,
            update,
            return_updated,
        } && {
            &&& kind is User
            &&& collection@ == "user"@
            &&& document_fields(filter) == seq![("username"@, FieldView::Text(like.liker@))]
            &&& document_fields(update) == seq![
                (
                    "$push"@,
                    FieldView::Nested(
                        seq![("likes_posts"@, FieldView::Texts(seq![username@, title@]))],
                    ),
                ),
            ]
            &&& return_updated
        },
{
    assert(command.deep_view() is FindOneAndUpdate);
}

/// A listing asks the cache for the post that the client named.
pub proof fn listing_asks_for_named_post(
    username: String,
    post_title: String,
    handler: GetPostComment,
    command: Command,
)
    requires
        call_ensures(get_post_comment, (username, post_title), handler),
        call_ensures(GetPostComment::command, (&handler,), command),
    ensures
        command matches Command::CacheGet { key } && key@ == username@ + "/"@ + post_title@,
{
    assert(command.deep_view() is CacheGet);
}

/// A like of a comment asks for the comment that the client named, by post and
/// title, to get the liker that the client sent.
pub proof fn comment_like_names_comment_and_liker(
    user_id: String,
    post_title: String,
    comment_title: String,
    like: Like,
    handler: PostCommentLike,
    command: Command,
)
    requires
        call_ensures(post_comment_like, (user_id, post_title, comment_title, like), handler),
        call_ensures(PostCommentLike::command, (&handler,), command),
    ensures
        command matches Command::FindOneAndUpdate {
            kind,
            collection,
            filter,
            update,
            return_updated,
        } && {
            &&& kind is Comment
            &&& collection@ == "comment"@
            &&& document_fields(filter) == seq![
                ("post_title"@, FieldView::Text(post_title@)),
                ("post_author"@, FieldView::Text(user_id@)),
                ("title"@, FieldView::Text(comment_title@)),
            ]
            &&& document_fields(update) == seq![
                (
                    "$addToSet"@,
                    FieldView::Nested(seq![("likers"@, FieldView::Text(like.liker@))]),
                ),
            ]
            &&& return_updated
        },
{
    assert(command.deep_view() is FindOneAndUpdate);
    let filter = text_field("post_title"@, post_title@) + text_field("post_author"@, user_id@)
        + text_field("title"@, comment_title@);
    assert(filter =~= seq![
        ("post_title"@, FieldView::Text(post_title@)),
        ("post_author"@, FieldView::Text(user_id@)),
        ("title"@, FieldView::Text(comment_title@)),
    ]);
}

/// A request for notifications opens a channel, and then asks for the queue of
/// the user that the client named.
pub proof fn notifications_ask_for_named_queue(
    username: String,
    handler: GetUserNotification,
    command: Command,
    next: Next<GetUserNotification, Vec<Notification>>,
    then: GetUserNotification,
    second: Command,
)
    requires
        call_ensures(get_user_notification, (username,), handler),
        call_ensures(GetUserNotification::command, (&handler,), command),
        call_ensures(GetUserNotification::resume, (handler, Reply::Done), next),
        next matches Next::Ask(state) && state == then,
        call_ensures(GetUserNotification::command, (&then,), second),
    ensures
        command is OpenChannel,
        second matches Command::Fetch { queue } && queue@ == username@,
{
    assert(command.deep_view() is OpenChannel);
    assert(Reply::Done.deep_view() is Done);
    assert(next.deep_view() is Ask);
    assert(second.deep_view() is Fetch);
}

} // verus!
