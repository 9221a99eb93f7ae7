//! What records are made of: what a client sends goes into the field that it is
//! meant for, and the mathematical content of a value shows its fields.
use time::Date;
use vstd::prelude::*;

use crate::comment::{Comment, CommentView, NewComment};
use crate::dialogue::{
    internal_error, CacheValue, CacheValueView, Command, CommandView,
    Next, NextView, Record, RecordView, Reply, ReplyView, Status,
};
use crate::mongo::{document_fields, FieldValue, FieldView, Index};
use crate::notification::{Notification, NotificationView};
use crate::post::{NewPost, Post, PostView};
use crate::redis::Fault;
use crate::user::{NewUser, User, UserView};

verus! {

/// A registration puts each text that the client sent into the field of its
/// name, and leaves every list empty.
pub proof fn registration_keeps_what_was_sent(new_user: NewUser, date: Date, user: User)
    requires
        call_ensures(User::register, (new_user, date), user),
    ensures
        user.name@ == new_user.name@,
        user.username@ == new_user.username@,
        user.email@ == new_user.email@,
        user.password@ == new_user.password@,
        user.date_of_creation == date,
        user.followers@.len() == 0,
        user.following@.len() == 0,
        user.posts@.len() == 0,
        user.likes_posts@.len() == 0,
        user.likes_comments@.len() == 0,
{
}

/// A publication keeps title and content as the client sent them, and the post
/// is that of the user who publishes it. Nobody has liked it or commented on it.
pub proof fn publication_keeps_what_was_sent(
    new_post: NewPost,
    author: String,
    date: Date,
    post: Post,
)
    requires
        call_ensures(Post::publish, (new_post, author, date), post),
    ensures
        post.title@ == new_post.title@,
        post.content@ == new_post.content@,
        post.author@ == author@,
        post.date_of_creation == date,
        post.likes@.len() == 0,
        post.comments@.len() == 0,
{
}

/// A comment keeps title, content and author as the client sent them, and is on
/// the post that was named. Nobody likes it.
pub proof fn comment_keeps_what_was_sent(
    post_author: String,
    post_title: String,
    new_comment: NewComment,
    date: Date,
    comment: Comment,
)
    requires
        call_ensures(Comment::write, (post_author, post_title, new_comment, date), comment),
    ensures
        comment.post_author@ == post_author@,
        comment.post_title@ == post_title@,
        comment.title@ == new_comment.title@,
        comment.content@ == new_comment.content@,
        comment.author@ == new_comment.author@,
        comment.date_of_creation == date,
        comment.likers@.len() == 0,
{
}

/// Each part of a registration is in the field of its name.
pub proof fn registered_user_has_its_parts(
    name: Seq<char>,
    username: Seq<char>,
    email: Seq<char>,
    password: Seq<char>,
    date: Date,
)
    ensures
        ({
            let user = UserView::registered(name, username, email, password, date);
            &&& user.name == name
            &&& user.username == username
            &&& user.email == email
            &&& user.password == password
            &&& user.date_of_creation == date
            &&& user.followers.len() == 0
            &&& user.following.len() == 0
            &&& user.posts.len() == 0
            &&& user.likes_posts.len() == 0
            &&& user.likes_comments.len() == 0
        }),
{
}

/// Each part of a publication is in the field of its name.
pub proof fn published_post_has_its_parts(
    title: Seq<char>,
    content: Seq<char>,
    author: Seq<char>,
    date: Date,
)
    ensures
        ({
            let post = PostView::published(title, content, author, date);
            &&& post.title == title
            &&& post.content == content
            &&& post.author == author
            &&& post.date_of_creation == date
            &&& post.likes.len() == 0
            &&& post.comments.len() == 0
        }),
{
}

/// Each part of a comment is in the field of its name.
pub proof fn written_comment_has_its_parts(
    post_author: Seq<char>,
    post_title: Seq<char>,
    title: Seq<char>,
    content: Seq<char>,
    author: Seq<char>,
    date: Date,
)
    ensures
        ({
            let comment = CommentView::written(
                post_author,
                post_title,
                title,
                content,
                author,
                date,
            );
            &&& comment.post_author == post_author
            &&& comment.post_title == post_title
            &&& comment.title == title
            &&& comment.content == content
            &&& comment.author == author
            &&& comment.date_of_creation == date
            &&& comment.likers.len() == 0
        }),
{
}

/// The content of a user shows every field as it is.
pub proof fn user_content_shows_fields(user: User)
    ensures
        user.deep_view().name == user.name@,
        user.deep_view().username == user.username@,
        user.deep_view().password == user.password@,
        user.deep_view().email == user.email@,
        user.deep_view().date_of_creation == user.date_of_creation,
        user.deep_view().followers.len() == user.followers@.len(),
        forall|i: int|
            0 <= i < user.followers@.len() ==> user.deep_view().followers[i]
                == (#[trigger] user.followers@[i])@,
        user.deep_view().following.len() == user.following@.len(),
        forall|i: int|
            0 <= i < user.following@.len() ==> user.deep_view().following[i]
                == (#[trigger] user.following@[i])@,
        user.deep_view().posts.len() == user.posts@.len(),
        forall|i: int|
            0 <= i < user.posts@.len() ==> user.deep_view().posts[i]
                == (#[trigger] user.posts@[i])@,
        user.deep_view().likes_posts.len() == user.likes_posts@.len(),
        forall|i: int|
            0 <= i < user.likes_posts@.len() ==> user.deep_view().likes_posts[i] == (
                (#[trigger] user.likes_posts@[i]).0@,
                user.likes_posts@[i].1@,
            ),
        user.deep_view().likes_comments.len() == user.likes_comments@.len(),
        forall|i: int|
            0 <= i < user.likes_comments@.len() ==> user.deep_view().likes_comments[i] == (
                (#[trigger] user.likes_comments@[i]).0@,
                user.likes_comments@[i].1@,
                user.likes_comments@[i].2,
            ),
{
}

/// The content of a post shows every field as it is.
pub proof fn post_content_shows_fields(post: Post)
    ensures
        post.deep_view().title == post.title@,
        post.deep_view().content == post.content@,
        post.deep_view().author == post.author@,
        post.deep_view().date_of_creation == post.date_of_creation,
        post.deep_view().likes.len() == post.likes@.len(),
        forall|i: int|
            0 <= i < post.likes@.len() ==> post.deep_view().likes[i]
                == (#[trigger] post.likes@[i])@,
        post.deep_view().comments.len() == post.comments@.len(),
        forall|i: int|
            0 <= i < post.comments@.len() ==> post.deep_view().comments[i]
                == (#[trigger] post.comments@[i])@,
{
}

/// The content of a comment shows every field as it is.
pub proof fn comment_content_shows_fields(comment: Comment)
    ensures
        comment.deep_view().post_author == comment.post_author@,
        comment.deep_view().post_title == comment.post_title@,
        comment.deep_view().title == comment.title@,
        comment.deep_view().content == comment.content@,
        comment.deep_view().author == comment.author@,
        comment.deep_view().date_of_creation == comment.date_of_creation,
        comment.deep_view().likers.len() == comment.likers@.len(),
        forall|i: int|
            0 <= i < comment.likers@.len() ==> comment.deep_view().likers[i]
                == (#[trigger] comment.likers@[i])@,
{
}

/// The content of a notification shows what it tells of.
pub proof fn notification_content_shows_fields(notification: Notification)
    ensures
        notification matches Notification::NewPost(post) ==> notification.deep_view()
            == NotificationView::NewPost(post.deep_view()),
        notification matches Notification::NewPostLike(like) ==> (notification.deep_view()
            matches NotificationView::NewPostLike { title, liker } && title == like.title@
            && liker == like.liker@),
        notification matches Notification::NewFollower(follower) ==> (notification.deep_view()
            matches NotificationView::NewFollower { username } && username
            == follower.username@),
        notification matches Notification::NewComment(comment) ==> notification.deep_view()
            == NotificationView::NewComment(comment.deep_view()),
        notification matches Notification::NewCommentLike(like) ==> (notification.deep_view()
            matches NotificationView::NewCommentLike { comment, liker } && comment
            == like.comment.deep_view() && liker == like.liker@),
{
}

/// A copy of a record has the texts of the record, field by field.
pub proof fn copies_keep_texts(
    user: User,
    user_copy: User,
    post: Post,
    post_copy: Post,
    comment: Comment,
    comment_copy: Comment,
)
    requires
        call_ensures(User::clone, (&user,), user_copy),
        call_ensures(Post::clone, (&post,), post_copy),
        call_ensures(Comment::clone, (&comment,), comment_copy),
    ensures
        user_copy.name@ == user.name@,
        user_copy.username@ == user.username@,
        user_copy.password@ == user.password@,
        user_copy.email@ == user.email@,
        post_copy.title@ == post.title@,
        post_copy.content@ == post.content@,
        post_copy.author@ == post.author@,
        comment_copy.post_author@ == comment.post_author@,
        comment_copy.post_title@ == comment.post_title@,
        comment_copy.title@ == comment.title@,
        comment_copy.content@ == comment.content@,
        comment_copy.author@ == comment.author@,
{
}

/// The content of a record shows which record it is, and of which kind.
pub proof fn record_content_shows_record(record: Record)
    ensures
        record matches Record::User(user) ==> record.deep_view() == RecordView::User(
            user.deep_view(),
        ) && record.deep_view().kind() is User,
        record matches Record::Post(post) ==> record.deep_view() == RecordView::Post(
            post.deep_view(),
        ) && record.deep_view().kind() is Post,
        record matches Record::Comment(comment) ==> record.deep_view() == RecordView::Comment(
            comment.deep_view(),
        ) && record.deep_view().kind() is Comment,
        record matches Record::Notification(notification) ==> record.deep_view()
            == RecordView::Notification(notification.deep_view()) && record.deep_view().kind()
            is Notification,
{
}

/// The content of a command shows the command, all of it.
pub proof fn command_content_shows_command(command: Command)
    ensures
        match command {
            Command::Insert { collection, record } => command.deep_view() == CommandView::Insert {
                collection: collection@,
                record: record.deep_view(),
            },
            Command::FindOne { kind, collection, filter } => command.deep_view()
                == CommandView::FindOne {
                kind,
                collection: collection@,
                filter: document_fields(filter),
            },
            Command::FindOneAndUpdate { kind, collection, filter, update, return_updated } =>
                command.deep_view() == CommandView::FindOneAndUpdate {
                kind,
                collection: collection@,
                filter: document_fields(filter),
                update: document_fields(update),
                return_updated,
            },
            Command::Find { kind, collection, filter } => command.deep_view()
                == CommandView::Find {
                kind,
                collection: collection@,
                filter: document_fields(filter),
            },
            Command::NextFound { kind } => command.deep_view() == CommandView::NextFound { kind },
            Command::EncodeJson { record } => command.deep_view() == CommandView::EncodeJson {
                record: record.deep_view(),
            },
            Command::DecodeJson { kind, bytes } => command.deep_view()
                == CommandView::DecodeJson { kind, bytes: bytes@ },
            Command::CacheGet { key } => command.deep_view() == CommandView::CacheGet {
                key: key@,
            },
            Command::CacheSet { key, value } => command.deep_view() == CommandView::CacheSet {
                key: key@,
                value: value@,
            },
            Command::OpenChannel => command.deep_view() == CommandView::OpenChannel,
            Command::DeclareQueue { queue } => command.deep_view()
                == CommandView::DeclareQueue { queue: queue@ },
            Command::Publish { exchange, routing_key, payload } => command.deep_view()
                == CommandView::Publish {
                exchange: exchange@,
                routing_key: routing_key@,
                payload: payload@,
            },
            Command::Fetch { queue } => command.deep_view() == CommandView::Fetch {
                queue: queue@,
            },
            Command::Acknowledge { delivery_tag } => command.deep_view()
                == CommandView::Acknowledge { delivery_tag },
        },
{
}

/// The content of a reply shows the reply, all of it.
pub proof fn reply_content_shows_reply(reply: Reply)
    ensures
        match reply {
            Reply::Failed(err) => reply.deep_view() == ReplyView::Failed(err@),
            Reply::NotEncoded(err) => reply.deep_view() == ReplyView::NotEncoded(err@),
            Reply::Done => reply.deep_view() == ReplyView::Done,
            Reply::Found(None) => reply.deep_view() == ReplyView::Found(None),
            Reply::Found(Some(record)) => reply.deep_view() == ReplyView::Found(
                Some(record.deep_view()),
            ),
            Reply::Encoded(bytes) => reply.deep_view() == ReplyView::Encoded(bytes@),
            Reply::Decoded(record) => reply.deep_view() == ReplyView::Decoded(record.deep_view()),
            Reply::Cached(CacheValue::Nil) => reply.deep_view() == ReplyView::Cached(
                CacheValueView::Nil,
            ),
            Reply::Cached(CacheValue::Data(bytes)) => reply.deep_view() == ReplyView::Cached(
                CacheValueView::Data(bytes@),
            ),
            Reply::Cached(CacheValue::Other) => reply.deep_view() == ReplyView::Cached(
                CacheValueView::Other,
            ),
            Reply::Fetched(None) => reply.deep_view() == ReplyView::Fetched(None),
            Reply::Fetched(Some(delivery)) => reply.deep_view() matches ReplyView::Fetched(
                Some(shown),
            ) && shown.delivery_tag == delivery.delivery_tag && shown.data == delivery.data@,
        },
{
}

/// What a handler does next is shown as it is: a further command, an answer, or
/// a refused reply.
pub proof fn next_content_shows_next<S: DeepView, A: DeepView>(next: Next<S, A>)
    ensures
        match next {
            Next::Ask(state) => next.deep_view() == NextView::<S::V, A::V>::Ask(
                state.deep_view(),
            ),
            Next::Respond(Ok(answer)) => next.deep_view() == NextView::<S::V, A::V>::Respond(
                Ok(answer.deep_view()),
            ),
            Next::Respond(Err(failure)) => next.deep_view() matches NextView::Respond(Err(shown))
                && shown.status == failure.status && shown.message == failure.message@,
            Next::OutOfTurn(state) => next.deep_view() == NextView::<S::V, A::V>::OutOfTurn(
                state.deep_view(),
            ),
        },
{
}

/// An internal error is one, and says what it was made to say.
pub proof fn internal_error_is_one(message: Seq<char>)
    ensures
        internal_error(message).status is InternalServerError,
        internal_error(message).message == message,
{
}

/// The statuses have the codes of HTTP.
pub proof fn statuses_have_http_codes(status: Status)
    ensures
        status is BadRequest ==> status.code_spec() == 400,
        status is NotFound ==> status.code_spec() == 404,
        status is InternalServerError ==> status.code_spec() == 500,
{
}

/// The contents of faults, fields and indexes show what they hold.
pub proof fn small_contents_show_fields(fault: Fault, value: FieldValue, index: Index)
    ensures
        fault.deep_view().kind == fault.kind,
        fault.deep_view().text == fault.text@,
        value matches FieldValue::Text(text) ==> value.deep_view() == FieldView::Text(text@),
        value matches FieldValue::Int(number) ==> value.deep_view() == FieldView::Int(
            number as int,
        ),
        value matches FieldValue::Texts(texts) ==> (value.deep_view() matches FieldView::Texts(
            shown,
        ) && shown.len() == texts@.len() && forall|i: int|
            0 <= i < shown.len() ==> shown[i] == (#[trigger] texts@[i])@),
        value matches FieldValue::Nested(document) ==> value.deep_view() == FieldView::Nested(
            document_fields(document),
        ),
        index.deep_view().collection == index.collection@,
        index.deep_view().keys == document_fields(index.keys),
        index.deep_view().unique == index.unique,
{
}

} // verus!
