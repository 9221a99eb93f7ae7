use mongodb::bson::Document;
use time::Date;
use vstd::prelude::*;

use crate::clock::today;
use crate::dialogue::{
    ask, fail, internal_error, out_of_turn, refuse, respond, CacheValue, CacheValueView, Command,
    CommandView, FailureView, Handler, Kind, Next, NextView, Record, RecordView, Reply,
    ReplyView, Status,
};
use crate::mongo::{
    document_fields, match_three, match_two, operation, text_field, update, FieldValue,
    FieldView, Fields,
};
use crate::notification::{NewCommentLike, Notification, NotificationView};
use crate::post::{
    make_post_key, match_author_and_title, not_a_post, post_key, undecodable_post, Like, Post,
    PostView,
};
use crate::user::copy_texts;

verus! {

/// What a client sends to comment on a post.
#[derive(Debug, Clone)]
pub struct NewComment {
    pub title: String,
    pub content: String,
    pub author: String,
}

/// A comment on a post.
#[derive(Debug)]
pub struct Comment {
    pub post_author: String,
    pub post_title: String,
    pub title: String,
    pub content: String,
    pub author: String,
    pub date_of_creation: Date,
    /// The usernames of those who like the comment.
    pub likers: Vec<String>,
}

/// The mathematical content of a [`Comment`].
pub struct CommentView {
    pub post_author: Seq<char>,
    pub post_title: Seq<char>,
    pub title: Seq<char>,
    pub content: Seq<char>,
    pub author: Seq<char>,
    pub date_of_creation: Date,
    pub likers: Seq<Seq<char>>,
}

impl DeepView for Comment {
    type V = CommentView;

    open spec fn deep_view(&self) -> CommentView {
        CommentView {
            post_author: self.post_author@,
            post_title: self.post_title@,
            title: self.title@,
            content: self.content@,
            author: self.author@,
            date_of_creation: self.date_of_creation,
            likers: self.likers.deep_view(),
        }
    }
}

impl CommentView {
    /// The comment that `author` writes on `date` on a post: nobody has
    /// liked it yet.
    pub open spec fn written(
        post_author: Seq<char>,
        post_title: Seq<char>,
        title: Seq<char>,
        content: Seq<char>,
        author: Seq<char>,
        date: Date,
    ) -> CommentView {
        CommentView {
            post_author,
            post_title,
            title,
            content,
            author,
            date_of_creation: date,
            likers: Seq::empty(),
        }
    }
}

impl Clone for Comment {
    fn clone(&self) -> (copy: Comment)
        ensures
            copy.deep_view() == self.deep_view(),
    {
        Comment {
            post_author: self.post_author.clone(),
            post_title: self.post_title.clone(),
            title: self.title.clone(),
            content: self.content.clone(),
            author: self.author.clone(),
            date_of_creation: self.date_of_creation,
            likers: copy_texts(&self.likers),
        }
    }
}

impl Comment {
    /// The comment that `new_comment` makes on `date` on a post.
    pub fn write(
        post_author: String,
        post_title: String,
        new_comment: NewComment,
        date: Date,
    ) -> (comment: Comment)
        ensures
            comment.deep_view() == CommentView::written(
                post_author@,
                post_title@,
                new_comment.title@,
                new_comment.content@,
                new_comment.author@,
                date,
            ),
            comment.post_author@ == post_author@,
            comment.post_title@ == post_title@,
            comment.title@ == new_comment.title@,
            comment.content@ == new_comment.content@,
            comment.author@ == new_comment.author@,
            comment.date_of_creation == date,
            comment.likers@.len() == 0,
    {
        let comment = Comment {
            post_author,
            post_title,
            title: new_comment.title,
            content: new_comment.content,
            author: new_comment.author,
            date_of_creation: date,
            likers: Vec::new(),
        };
        assert(comment.likers.deep_view() =~= Seq::empty());
        comment
    }
}

/// A post's name in messages.
pub open spec fn post_name(author: Seq<char>, title: Seq<char>) -> Seq<char> {
    "post "@ + author + "/"@ + title
}

/// The message on a post that does not exist.
fn post_not_found(author: &str, title: &str) -> (message: String)
    ensures
        message@ == post_name(author@, title@) + " not found"@,
{
    "post ".to_string().concat(author).concat("/").concat(title).concat(" not found")
}

/// Lists the comments on a post, which must be in the cache or in the document
/// store.
#[derive(Debug)]
pub enum GetPostComment {
    CacheGet { username: String, post_title: String },
    DecodePost { username: String, post_title: String, json: Vec<u8> },
    FindPost { username: String, post_title: String },
    FindComments { username: String, post_title: String },
    NextComment { comments: Vec<Comment> },
}

/// The mathematical content of a [`GetPostComment`].
pub enum GetPostCommentView {
    CacheGet { username: Seq<char>, post_title: Seq<char> },
    DecodePost { username: Seq<char>, post_title: Seq<char>, json: Seq<u8> },
    FindPost { username: Seq<char>, post_title: Seq<char> },
    FindComments { username: Seq<char>, post_title: Seq<char> },
    NextComment { comments: Seq<CommentView> },
}

impl DeepView for GetPostComment {
    type V = GetPostCommentView;

    open spec fn deep_view(&self) -> GetPostCommentView {
        match self {
            GetPostComment::CacheGet { username, post_title } => GetPostCommentView::CacheGet {
                username: username@,
                post_title: post_title@,
            },
            GetPostComment::DecodePost { username, post_title, json } =>
                GetPostCommentView::DecodePost {
                username: username@,
                post_title: post_title@,
                json: json@,
            },
            GetPostComment::FindPost { username, post_title } => GetPostCommentView::FindPost {
                username: username@,
                post_title: post_title@,
            },
            GetPostComment::FindComments { username, post_title } =>
                GetPostCommentView::FindComments {
                username: username@,
                post_title: post_title@,
            },
            GetPostComment::NextComment { comments } => GetPostCommentView::NextComment {
                comments: comments.deep_view(),
            },
        }
    }
}

/// The filter that asks for the comments on a post.
pub open spec fn comments_of(author: Seq<char>, title: Seq<char>) -> Fields {
    text_field("post_author"@, author) + text_field("post_title"@, title)
}

/// The command that looks for the comments on a post.
pub open spec fn comments_in_store(author: Seq<char>, title: Seq<char>) -> CommandView {
    CommandView::Find {
        kind: Kind::Comment,
        collection: "comment"@,
        filter: comments_of(author, title),
    }
}

/// The filter that asks for the comments on a post.
fn match_comments_of(author: &str, title: &str) -> (filter: Document)
    ensures
        document_fields(filter) == comments_of(author@, title@),
{
    proof {
        reveal_strlit("post_author");
        reveal_strlit("post_title");
        assert("post_author"@.len() != "post_title"@.len());
    }
    match_two("post_author", author, "post_title", title)
}

impl Handler for GetPostComment {
    type Answer = Vec<Comment>;

    open spec fn pending(state: GetPostCommentView) -> CommandView {
        match state {
            GetPostCommentView::CacheGet { username, post_title } => CommandView::CacheGet {
                key: post_key(username, post_title),
            },
            GetPostCommentView::DecodePost { json, .. } => CommandView::DecodeJson {
                kind: Kind::Post,
                bytes: json,
            },
            GetPostCommentView::FindPost { username, post_title } => CommandView::FindOne {
                kind: Kind::Post,
                collection: "post"@,
                filter: text_field("author"@, username) + text_field("title"@, post_title),
            },
            GetPostCommentView::FindComments { username, post_title } => comments_in_store(
                username,
                post_title,
            ),
            GetPostCommentView::NextComment { .. } => CommandView::NextFound {
                kind: Kind::Comment,
            },
        }
    }

    open spec fn complaint(state: GetPostCommentView, err: Seq<char>) -> Seq<char> {
        match state {
            GetPostCommentView::CacheGet { .. } => "failed to get post from redis: "@ + err,
            GetPostCommentView::DecodePost { .. } => "failed to get post from redis: "@
                + undecodable_post(err),
            GetPostCommentView::FindPost { .. } => "failed to find post: "@ + err,
            GetPostCommentView::FindComments { .. } => "failed to find comments: "@ + err,
            GetPostCommentView::NextComment { .. } => "failed to get comment: "@ + err,
        }
    }

    open spec fn accepted(state: GetPostCommentView, reply: ReplyView) -> NextView<
        GetPostCommentView,
        Seq<CommentView>,
    > {
        match (state, reply) {
            (
                GetPostCommentView::CacheGet { username, post_title },
                ReplyView::Cached(value),
            ) => match value {
                CacheValueView::Nil => NextView::Ask(
                    GetPostCommentView::FindPost { username, post_title },
                ),
                CacheValueView::Data(json) => NextView::Ask(
                    GetPostCommentView::DecodePost { username, post_title, json },
                ),
                CacheValueView::Other => NextView::Respond(
                    Err(internal_error("failed to get post from redis: "@ + not_a_post())),
                ),
            },
            (GetPostCommentView::DecodePost { username, post_title, .. }, _) => NextView::Ask(
                GetPostCommentView::FindComments { username, post_title },
            ),
            (GetPostCommentView::FindPost { username, post_title }, ReplyView::Found(found)) =>
                if found is Some {
                    NextView::Ask(GetPostCommentView::FindComments { username, post_title })
                } else {
                    NextView::Respond(
                        Err(
                            FailureView {
                                status: Status::NotFound,
                                message: post_name(username, post_title) + " not found"@,
                            },
                        ),
                    )
                },
            (GetPostCommentView::FindComments { .. }, _) => NextView::Ask(
                GetPostCommentView::NextComment { comments: Seq::empty() },
            ),
            (
                GetPostCommentView::NextComment { comments },
                ReplyView::Found(Some(RecordView::Comment(comment))),
            ) => NextView::Ask(
                GetPostCommentView::NextComment { comments: comments.push(comment) },
            ),
            (GetPostCommentView::NextComment { comments }, _) => NextView::Respond(
                Ok(comments),
            ),
            (state, _) => NextView::OutOfTurn(state),
        }
    }

    fn command(&self) -> Command {
        match self {
            GetPostComment::CacheGet { username, post_title } => Command::CacheGet {
                key: make_post_key(username.as_str(), post_title.as_str()),
            },
            GetPostComment::DecodePost { json, .. } => Command::DecodeJson {
                kind: Kind::Post,
                bytes: json.clone(),
            },
            GetPostComment::FindPost { username, post_title } => Command::FindOne {
                kind: Kind::Post,
                collection: "post",
                filter: match_author_and_title(username.as_str(), post_title.as_str()),
            },
            GetPostComment::FindComments { username, post_title } => Command::Find {
                kind: Kind::Comment,
                collection: "comment",
                filter: match_comments_of(username.as_str(), post_title.as_str()),
            },
            GetPostComment::NextComment { .. } => Command::NextFound { kind: Kind::Comment },
        }
    }

    fn resume(self, reply: Reply) -> (next: Next<GetPostComment, Vec<Comment>>) {
        match (self, reply) {
            (GetPostComment::CacheGet { .. }, Reply::Failed(err)) => fail(
                "failed to get post from redis: ",
                err.as_str(),
            ),
            (
                GetPostComment::CacheGet { username, post_title },
                Reply::Cached(CacheValue::Nil),
            ) => ask(GetPostComment::FindPost { username, post_title }),
            (GetPostComment::CacheGet { username, post_title }, Reply::Cached(value)) =>
                match Post::from_redis_value(value) {
                    Ok(json) => ask(
                        GetPostComment::DecodePost { username, post_title, json },
                    ),
                    Err(fault) => fail("failed to get post from redis: ", fault.text.as_str()),
                },
            (GetPostComment::DecodePost { .. }, Reply::Failed(err)) => fail(
                "failed to get post from redis: ",
                Post::undecodable(err).text.as_str(),
            ),
            (
                GetPostComment::DecodePost { username, post_title, .. },
                Reply::Decoded(Record::Post(_)),
            ) => ask(GetPostComment::FindComments { username, post_title }),
            (GetPostComment::FindPost { .. }, Reply::Failed(err)) => fail(
                "failed to find post: ",
                err.as_str(),
            ),
            (GetPostComment::FindPost { username, post_title }, Reply::Found(None)) => refuse(
                Status::NotFound,
                post_not_found(username.as_str(), post_title.as_str()),
            ),
            (
                GetPostComment::FindPost { username, post_title },
                Reply::Found(Some(Record::Post(_))),
            ) => ask(GetPostComment::FindComments { username, post_title }),
            (GetPostComment::FindComments { .. }, Reply::Failed(err)) => fail(
                "failed to find comments: ",
                err.as_str(),
            ),
            (GetPostComment::FindComments { .. }, Reply::Done) => {
                let comments: Vec<Comment> = Vec::new();
                assert(comments.deep_view() =~= Seq::empty());
                ask(GetPostComment::NextComment { comments })
            },
            (GetPostComment::NextComment { .. }, Reply::Failed(err)) => fail(
                "failed to get comment: ",
                err.as_str(),
            ),
            (
                GetPostComment::NextComment { comments },
                Reply::Found(Some(Record::Comment(comment))),
            ) => {
                let ghost before = comments.deep_view();
                let mut comments = comments;
                comments.push(comment);
                assert(comments.deep_view() =~= before.push(comment.deep_view()));
                ask(GetPostComment::NextComment { comments })
            },
            (GetPostComment::NextComment { comments }, Reply::Found(None)) => respond(comments),
            (state, _) => out_of_turn(state),
        }
    }
}

/// Starts to list the comments on the post of `username` with this title.
pub fn get_post_comment(username: String, post_title: String) -> (handler: GetPostComment)
    ensures
        handler.deep_view() == (GetPostCommentView::CacheGet {
            username: username@,
            post_title: post_title@,
        }),
{
    GetPostComment::CacheGet { username, post_title }
}

/// Comments on a post: adds the comment's title to the post, stores the comment,
/// notifies the author of the post and caches the post.
#[derive(Debug)]
pub enum PostNewComment {
    UpdatePost { comment: Comment },
    Insert { comment: Comment, found: Option<Post> },
    OpenChannel { comment: Comment, post: Post },
    EncodeNotification { comment: Comment, post: Post },
    Publish { comment: Comment, post: Post, payload: Vec<u8> },
    EncodePost { comment: Comment, post: Post },
    CachePost { comment: Comment, json: Vec<u8> },
}

/// The mathematical content of a [`PostNewComment`].
pub enum PostNewCommentView {
    UpdatePost { comment: CommentView },
    Insert { comment: CommentView, found: Option<PostView> },
    OpenChannel { comment: CommentView, post: PostView },
    EncodeNotification { comment: CommentView, post: PostView },
    Publish { comment: CommentView, post: PostView, payload: Seq<u8> },
    EncodePost { comment: CommentView, post: PostView },
    CachePost { comment: CommentView, json: Seq<u8> },
}

impl DeepView for PostNewComment {
    type V = PostNewCommentView;

    open spec fn deep_view(&self) -> PostNewCommentView {
        match self {
            PostNewComment::UpdatePost { comment } => PostNewCommentView::UpdatePost {
                comment: comment.deep_view(),
            },
            PostNewComment::Insert { comment, found } => PostNewCommentView::Insert {
                comment: comment.deep_view(),
                found: found.deep_view(),
            },
            PostNewComment::OpenChannel { comment, post } => PostNewCommentView::OpenChannel {
                comment: comment.deep_view(),
                post: post.deep_view(),
            },
            PostNewComment::EncodeNotification { comment, post } =>
                PostNewCommentView::EncodeNotification {
                comment: comment.deep_view(),
                post: post.deep_view(),
            },
            PostNewComment::Publish { comment, post, payload } => PostNewCommentView::Publish {
                comment: comment.deep_view(),
                post: post.deep_view(),
                payload: payload@,
            },
            PostNewComment::EncodePost { comment, post } => PostNewCommentView::EncodePost {
                comment: comment.deep_view(),
                post: post.deep_view(),
            },
            PostNewComment::CachePost { comment, json } => PostNewCommentView::CachePost {
                comment: comment.deep_view(),
                json: json@,
            },
        }
    }
}

impl PostNewComment {
    /// Starts to comment on `date` on the post of `username` with this title.
    pub fn begin(
        username: String,
        post_title: String,
        new_comment: NewComment,
        date: Date,
    ) -> (handler: PostNewComment)
        ensures
            handler.deep_view() == (PostNewCommentView::UpdatePost {
                comment: CommentView::written(
                    username@,
                    post_title@,
                    new_comment.title@,
                    new_comment.content@,
                    new_comment.author@,
                    date,
                ),
            }),
            handler matches PostNewComment::UpdatePost { comment } && {
                &&& comment.post_author@ == username@
                &&& comment.post_title@ == post_title@
                &&& comment.title@ == new_comment.title@
                &&& comment.content@ == new_comment.content@
                &&& comment.author@ == new_comment.author@
                &&& comment.date_of_creation == date
            },
    {
        PostNewComment::UpdatePost {
            comment: Comment::write(username, post_title, new_comment, date),
        }
    }
}

impl Handler for PostNewComment {
    type Answer = Comment;

    open spec fn pending(state: PostNewCommentView) -> CommandView {
        match state {
            PostNewCommentView::UpdatePost { comment } => CommandView::FindOneAndUpdate {
                kind: Kind::Post,
                collection: "post"@,
                filter: text_field("author"@, comment.post_author) + text_field(
                    "title"@,
                    comment.post_title,
                ),
                update: operation("$push"@, "comments"@, FieldView::Text(comment.title)),
                return_updated: true,
            },
            PostNewCommentView::Insert { comment, .. } => CommandView::Insert {
                collection: "comment"@,
                record: RecordView::Comment(comment),
            },
            PostNewCommentView::OpenChannel { .. } => CommandView::OpenChannel,
            PostNewCommentView::EncodeNotification { comment, .. } => CommandView::EncodeJson {
                record: RecordView::Notification(NotificationView::NewComment(comment)),
            },
            PostNewCommentView::Publish { comment, payload, .. } => CommandView::Publish {
                exchange: ""@,
                routing_key: comment.post_author,
                payload,
            },
            PostNewCommentView::EncodePost { post, .. } => CommandView::EncodeJson {
                record: RecordView::Post(post),
            },
            PostNewCommentView::CachePost { comment, json } => CommandView::CacheSet {
                key: post_key(comment.post_author, comment.post_title),
                value: json,
            },
        }
    }

    open spec fn complaint(state: PostNewCommentView, err: Seq<char>) -> Seq<char> {
        match state {
            PostNewCommentView::UpdatePost { .. } => "failed to insert comment into post: "@
                + err,
            PostNewCommentView::Insert { .. } => "failed to insert comment into mongo: "@ + err,
            PostNewCommentView::OpenChannel { .. } => "failed to create rabbitmq channel: "@
                + err,
            PostNewCommentView::EncodeNotification { .. } =>
                "failed to serialize notification: "@ + err,
            PostNewCommentView::Publish { .. } => "failed to publish notification: "@ + err,
            PostNewCommentView::EncodePost { .. } => "failed to serialize post: "@ + err,
            PostNewCommentView::CachePost { .. } => "failed to insert post into redis cache: "@
                + err,
        }
    }

    open spec fn accepted(state: PostNewCommentView, reply: ReplyView) -> NextView<
        PostNewCommentView,
        CommentView,
    > {
        match (state, reply) {
            (
                PostNewCommentView::UpdatePost { comment },
                ReplyView::Found(Some(RecordView::Post(post))),
            ) => NextView::Ask(PostNewCommentView::Insert { comment, found: Some(post) }),
            (PostNewCommentView::UpdatePost { comment }, _) => NextView::Ask(
                PostNewCommentView::Insert { comment, found: None },
            ),
            (PostNewCommentView::Insert { .. }, ReplyView::NotEncoded(err)) =>
                NextView::Respond(Err(internal_error("failed to serialize comment: "@ + err))),
            (PostNewCommentView::Insert { comment, found: Some(post) }, _) => NextView::Ask(
                PostNewCommentView::OpenChannel { comment, post },
            ),
            (PostNewCommentView::Insert { comment, found: None }, _) => NextView::Respond(
                Err(
                    FailureView {
                        status: Status::BadRequest,
                        message: post_name(comment.post_author, comment.post_title)
                            + " not found"@,
                    },
                ),
            ),
            (PostNewCommentView::OpenChannel { comment, post }, _) => NextView::Ask(
                PostNewCommentView::EncodeNotification { comment, post },
            ),
            (
                PostNewCommentView::EncodeNotification { comment, post },
                ReplyView::Encoded(payload),
            ) => NextView::Ask(PostNewCommentView::Publish { comment, post, payload }),
            (PostNewCommentView::Publish { comment, post, .. }, _) => NextView::Ask(
                PostNewCommentView::EncodePost { comment, post },
            ),
            (PostNewCommentView::EncodePost { comment, .. }, ReplyView::Encoded(json)) =>
                NextView::Ask(PostNewCommentView::CachePost { comment, json }),
            (PostNewCommentView::CachePost { comment, .. }, _) => NextView::Respond(
                Ok(comment),
            ),
            (state, _) => NextView::OutOfTurn(state),
        }
    }

    fn command(&self) -> Command {
        match self {
            PostNewComment::UpdatePost { comment } => Command::FindOneAndUpdate {
                kind: Kind::Post,
                collection: "post",
                filter: match_author_and_title(
                    comment.post_author.as_str(),
                    comment.post_title.as_str(),
                ),
                update: update("$push", "comments", FieldValue::Text(comment.title.clone())),
                return_updated: true,
            },
            PostNewComment::Insert { comment, .. } => Command::Insert {
                collection: "comment",
                record: Record::Comment(comment.clone()),
            },
            PostNewComment::OpenChannel { .. } => Command::OpenChannel,
            PostNewComment::EncodeNotification { comment, .. } => Command::EncodeJson {
                record: Record::Notification(Notification::NewComment(comment.clone())),
            },
            PostNewComment::Publish { comment, payload, .. } => Command::Publish {
                exchange: "",
                routing_key: comment.post_author.clone(),
                payload: payload.clone(),
            },
            PostNewComment::EncodePost { post, .. } => Command::EncodeJson {
                record: Record::Post(post.clone()),
            },
            PostNewComment::CachePost { comment, json } => Command::CacheSet {
                key: make_post_key(comment.post_author.as_str(), comment.post_title.as_str()),
                value: json.clone(),
            },
        }
    }

    fn resume(self, reply: Reply) -> (next: Next<PostNewComment, Comment>) {
        match (self, reply) {
            (PostNewComment::UpdatePost { .. }, Reply::Failed(err)) => fail(
                "failed to insert comment into post: ",
                err.as_str(),
            ),
            (PostNewComment::UpdatePost { comment }, Reply::Found(None)) => ask(
                PostNewComment::Insert { comment, found: None },
            ),
            (PostNewComment::UpdatePost { comment }, Reply::Found(Some(Record::Post(post)))) =>
                ask(PostNewComment::Insert { comment, found: Some(post) }),
            (PostNewComment::Insert { .. }, Reply::NotEncoded(err)) => fail(
                "failed to serialize comment: ",
                err.as_str(),
            ),
            (PostNewComment::Insert { .. }, Reply::Failed(err)) => fail(
                "failed to insert comment into mongo: ",
                err.as_str(),
            ),
            (PostNewComment::Insert { comment, found: Some(post) }, Reply::Done) => ask(
                PostNewComment::OpenChannel { comment, post },
            ),
            (PostNewComment::Insert { comment, found: None }, Reply::Done) => refuse(
                Status::BadRequest,
                post_not_found(comment.post_author.as_str(), comment.post_title.as_str()),
            ),
            (PostNewComment::OpenChannel { .. }, Reply::Failed(err)) => fail(
                "failed to create rabbitmq channel: ",
                err.as_str(),
            ),
            (PostNewComment::OpenChannel { comment, post }, Reply::Done) => ask(
                PostNewComment::EncodeNotification { comment, post },
            ),
            (PostNewComment::EncodeNotification { .. }, Reply::Failed(err)) => fail(
                "failed to serialize notification: ",
                err.as_str(),
            ),
            (PostNewComment::EncodeNotification { comment, post }, Reply::Encoded(payload)) =>
                ask(PostNewComment::Publish { comment, post, payload }),
            (PostNewComment::Publish { .. }, Reply::Failed(err)) => fail(
                "failed to publish notification: ",
                err.as_str(),
            ),
            (PostNewComment::Publish { comment, post, .. }, Reply::Done) => ask(
                PostNewComment::EncodePost { comment, post },
            ),
            (PostNewComment::EncodePost { .. }, Reply::Failed(err)) => fail(
                "failed to serialize post: ",
                err.as_str(),
            ),
            (PostNewComment::EncodePost { comment, .. }, Reply::Encoded(json)) => ask(
                PostNewComment::CachePost { comment, json },
            ),
            (PostNewComment::CachePost { .. }, Reply::Failed(err)) => fail(
                "failed to insert post into redis cache: ",
                err.as_str(),
            ),
            (PostNewComment::CachePost { comment, .. }, Reply::Done) => respond(comment),
            (state, _) => out_of_turn(state),
        }
    }
}

/// Starts to comment today on the post of `username` with this title.
pub fn post_new_comment(
    username: String,
    post_title: String,
    new_comment: NewComment,
) -> (handler: PostNewComment)
    ensures
        exists|date: Date|
            handler.deep_view() == (PostNewCommentView::UpdatePost {
                comment: #[trigger] CommentView::written(
                    username@,
                    post_title@,
                    new_comment.title@,
                    new_comment.content@,
                    new_comment.author@,
                    date,
                ),
            }),
{
    PostNewComment::begin(username, post_title, new_comment, today())
}

/// Likes a comment: adds the liker to those who like it and notifies the author
/// of the comment.
#[derive(Debug)]
pub enum PostCommentLike {
    UpdateComment { user_id: String, post_title: String, comment_title: String, liker: String },
    OpenChannel { comment: Comment, liker: String },
    EncodeNotification { comment: Comment, liker: String },
    Publish { comment: Comment, payload: Vec<u8> },
    EncodeComment { comment: Comment },
}

/// The mathematical content of a [`PostCommentLike`].
pub enum PostCommentLikeView {
    UpdateComment {
        user_id: Seq<char>,
        post_title: Seq<char>,
        comment_title: Seq<char>,
        liker: Seq<char>,
    },
    OpenChannel { comment: CommentView, liker: Seq<char> },
    EncodeNotification { comment: CommentView, liker: Seq<char> },
    Publish { comment: CommentView, payload: Seq<u8> },
    EncodeComment { comment: CommentView },
}

impl DeepView for PostCommentLike {
    type V = PostCommentLikeView;

    open spec fn deep_view(&self) -> PostCommentLikeView {
        match self {
            PostCommentLike::UpdateComment { user_id, post_title, comment_title, liker } =>
                PostCommentLikeView::UpdateComment {
                user_id: user_id@,
                post_title: post_title@,
                comment_title: comment_title@,
                liker: liker@,
            },
            PostCommentLike::OpenChannel { comment, liker } => PostCommentLikeView::OpenChannel {
                comment: comment.deep_view(),
                liker: liker@,
            },
            PostCommentLike::EncodeNotification { comment, liker } =>
                PostCommentLikeView::EncodeNotification {
                comment: comment.deep_view(),
                liker: liker@,
            },
            PostCommentLike::Publish { comment, payload } => PostCommentLikeView::Publish {
                comment: comment.deep_view(),
                payload: payload@,
            },
            PostCommentLike::EncodeComment { comment } => PostCommentLikeView::EncodeComment {
                comment: comment.deep_view(),
            },
        }
    }
}

/// The filter that asks for a comment by its post and its title.
pub open spec fn comment_titled(
    user_id: Seq<char>,
    post_title: Seq<char>,
    comment_title: Seq<char>,
) -> Fields {
    text_field("post_title"@, post_title) + text_field("post_author"@, user_id) + text_field(
        "title"@,
        comment_title,
    )
}

/// The filter that asks for a comment by its post and its title.
fn match_comment_titled(user_id: &str, post_title: &str, comment_title: &str) -> (filter:
    Document)
    ensures
        document_fields(filter) == comment_titled(user_id@, post_title@, comment_title@),
{
    proof {
        reveal_strlit("post_title");
        reveal_strlit("post_author");
        reveal_strlit("title");
        assert("post_title"@.len() != "post_author"@.len());
        assert("post_title"@.len() != "title"@.len());
        assert("post_author"@.len() != "title"@.len());
    }
    match_three("post_title", post_title, "post_author", user_id, "title", comment_title)
}

impl Handler for PostCommentLike {
    type Answer = Comment;

    open spec fn pending(state: PostCommentLikeView) -> CommandView {
        match state {
            PostCommentLikeView::UpdateComment { user_id, post_title, comment_title, liker } =>
                CommandView::FindOneAndUpdate {
                kind: Kind::Comment,
                collection: "comment"@,
                filter: comment_titled(user_id, post_title, comment_title),
                update: operation("$addToSet"@, "likers"@, FieldView::Text(liker)),
                return_updated: true,
            },
            PostCommentLikeView::OpenChannel { .. } => CommandView::OpenChannel,
            PostCommentLikeView::EncodeNotification { comment, liker } =>
                CommandView::EncodeJson {
                record: RecordView::Notification(
                    NotificationView::NewCommentLike { comment, liker },
                ),
            },
            PostCommentLikeView::Publish { comment, payload } => CommandView::Publish {
                exchange: ""@,
                routing_key: comment.author,
                payload,
            },
            PostCommentLikeView::EncodeComment { comment } => CommandView::EncodeJson {
                record: RecordView::Comment(comment),
            },
        }
    }

    open spec fn complaint(state: PostCommentLikeView, err: Seq<char>) -> Seq<char> {
        match state {
            PostCommentLikeView::UpdateComment { .. } => "failed to like comment: "@ + err,
            PostCommentLikeView::OpenChannel { .. } => "failed to create rabbitmq channel: "@
                + err,
            PostCommentLikeView::EncodeNotification { .. } =>
                "failed to serialize notification: "@ + err,
            PostCommentLikeView::Publish { .. } => "failed to publish notification: "@ + err,
            PostCommentLikeView::EncodeComment { .. } => "failed to serialize comment: "@ + err,
        }
    }

    open spec fn accepted(state: PostCommentLikeView, reply: ReplyView) -> NextView<
        PostCommentLikeView,
        CommentView,
    > {
        match (state, reply) {
            (
                PostCommentLikeView::UpdateComment { liker, .. },
                ReplyView::Found(Some(RecordView::Comment(comment))),
            ) => NextView::Ask(PostCommentLikeView::OpenChannel { comment, liker }),
            (
                PostCommentLikeView::UpdateComment { user_id, post_title, comment_title, .. },
                _,
            ) => NextView::Respond(
                Err(
                    FailureView {
                        status: Status::NotFound,
                        message: "comment "@ + user_id + "/"@ + post_title + "/"@
                            + comment_title + " not found"@,
                    },
                ),
            ),
            (PostCommentLikeView::OpenChannel { comment, liker }, _) => NextView::Ask(
                PostCommentLikeView::EncodeNotification { comment, liker },
            ),
            (
                PostCommentLikeView::EncodeNotification { comment, .. },
                ReplyView::Encoded(payload),
            ) => NextView::Ask(PostCommentLikeView::Publish { comment, payload }),
            (PostCommentLikeView::Publish { comment, .. }, _) => NextView::Ask(
                PostCommentLikeView::EncodeComment { comment },
            ),
            (PostCommentLikeView::EncodeComment { comment }, _) => NextView::Respond(
                Ok(comment),
            ),
            (state, _) => NextView::OutOfTurn(state),
        }
    }

    fn command(&self) -> Command {
        match self {
            PostCommentLike::UpdateComment { user_id, post_title, comment_title, liker } =>
                Command::FindOneAndUpdate {
                kind: Kind::Comment,
                collection: "comment",
                filter: match_comment_titled(
                    user_id.as_str(),
                    post_title.as_str(),
                    comment_title.as_str(),
                ),
                update: update("$addToSet", "likers", FieldValue::Text(liker.clone())),
                return_updated: true,
            },
            PostCommentLike::OpenChannel { .. } => Command::OpenChannel,
            PostCommentLike::EncodeNotification { comment, liker } => Command::EncodeJson {
                record: Record::Notification(
                    Notification::NewCommentLike(
                        NewCommentLike { comment: comment.clone(), liker: liker.clone() },
                    ),
                ),
            },
            PostCommentLike::Publish { comment, payload } => Command::Publish {
                exchange: "",
                routing_key: comment.author.clone(),
                payload: payload.clone(),
            },
            PostCommentLike::EncodeComment { comment } => Command::EncodeJson {
                record: Record::Comment(comment.clone()),
            },
        }
    }

    fn resume(self, reply: Reply) -> (next: Next<PostCommentLike, Comment>) {
        match (self, reply) {
            (PostCommentLike::UpdateComment { .. }, Reply::Failed(err)) => fail(
                "failed to like comment: ",
                err.as_str(),
            ),
            (
                PostCommentLike::UpdateComment { user_id, post_title, comment_title, .. },
                Reply::Found(None),
            ) => refuse(
                Status::NotFound,
                "comment ".to_string().concat(user_id.as_str()).concat("/").concat(
                    post_title.as_str(),
                ).concat("/").concat(comment_title.as_str()).concat(" not found"),
            ),
            (
                PostCommentLike::UpdateComment { liker, .. },
                Reply::Found(Some(Record::Comment(comment))),
            ) => ask(PostCommentLike::OpenChannel { comment, liker }),
            (PostCommentLike::OpenChannel { .. }, Reply::Failed(err)) => fail(
                "failed to create rabbitmq channel: ",
                err.as_str(),
            ),
            (PostCommentLike::OpenChannel { comment, liker }, Reply::Done) => ask(
                PostCommentLike::EncodeNotification { comment, liker },
            ),
            (PostCommentLike::EncodeNotification { .. }, Reply::Failed(err)) => fail(
                "failed to serialize notification: ",
                err.as_str(),
            ),
            (PostCommentLike::EncodeNotification { comment, .. }, Reply::Encoded(payload)) =>
                ask(PostCommentLike::Publish { comment, payload }),
            (PostCommentLike::Publish { .. }, Reply::Failed(err)) => fail(
                "failed to publish notification: ",
                err.as_str(),
            ),
            (PostCommentLike::Publish { comment, .. }, Reply::Done) => ask(
                PostCommentLike::EncodeComment { comment },
            ),
            (PostCommentLike::EncodeComment { .. }, Reply::Failed(err)) => fail(
                "failed to serialize comment: ",
                err.as_str(),
            ),
            (PostCommentLike::EncodeComment { comment }, Reply::Encoded(_)) => respond(comment),
            (state, _) => out_of_turn(state),
        }
    }
}

/// Starts to like a comment on the post of `user_id` with this title.
pub fn post_comment_like(
    user_id: String,
    post_title: String,
    comment_title: String,
    like: Like,
) -> (handler: PostCommentLike)
    ensures
        handler.deep_view() == (PostCommentLikeView::UpdateComment {
            user_id: user_id@,
            post_title: post_title@,
            comment_title: comment_title@,
            liker: like.liker@,
        }),
{
    PostCommentLike::UpdateComment { user_id, post_title, comment_title, liker: like.liker }
}

} // verus!
