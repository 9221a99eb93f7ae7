//! What is asked for in each state, written out to the last key and value.
use vstd::prelude::*;

use crate::comment::{
    comment_titled, comments_in_store, comments_of, CommentView, GetPostComment,
    GetPostCommentView, PostCommentLike, PostCommentLikeView, PostNewComment, PostNewCommentView,
};
use crate::dialogue::{CommandView, DeliveryView, Handler, Kind, RecordView};
use crate::follow::{PostUserFollow, PostUserFollowView};
use crate::mongo::{
    ascending, field, needed_indexes, operation, text_field, FieldView, IndexView,
};
use crate::notification::{GetUserNotification, GetUserNotificationView, NotificationView};
use crate::post::{
    post_key, PostNewPost, PostNewPostView, PostPostLike, PostPostLikeView, PostView,
};
use crate::user::{
    user_in_cache, user_in_store, GetUser, GetUserView, PostNewUser, PostNewUserView, UserView,
};

verus! {

/// The documents that queries and updates are made of, and the indexes.
pub proof fn documents_are_written_out(
    key: Seq<char>,
    text: Seq<char>,
    value: FieldView,
    operator: Seq<char>,
)
    ensures
        field(key, value) == seq![(key, value)],
        text_field(key, text) == seq![(key, FieldView::Text(text))],
        operation(operator, key, value) == seq![(operator, FieldView::Nested(seq![(key, value)]))],
        ascending(key) == seq![(key, FieldView::Int(1))],
        needed_indexes().len() == 2,
        needed_indexes()[0] == (IndexView {
            collection: "user"@,
            keys: seq![("name"@, FieldView::Int(1))],
            unique: true,
        }),
        needed_indexes()[1].collection == "post"@,
        needed_indexes()[1].keys == seq![
            ("title"@, FieldView::Int(1)),
            ("username"@, FieldView::Int(1)),
        ],
        needed_indexes()[1].unique,
{
}

/// The key of a post in the cache: its author, a slash, and its title.
pub proof fn post_key_is_author_slash_title(author: Seq<char>, title: Seq<char>)
    ensures
        ({
            let key = post_key(author, title);
            &&& key.len() == author.len() + 1 + title.len()
            &&& key.take(author.len() as int) == author
            &&& key[author.len() as int] == '/'
            &&& key.skip((author.len() + 1) as int) == title
        }),
{
    reveal_strlit("/");
    let key = post_key(author, title);
    assert(key.take(author.len() as int) =~= author);
    assert(key.skip((author.len() + 1) as int) =~= title);
}

/// Registration asks to store the user.
pub proof fn registration_commands(user: UserView)
    ensures
        PostNewUser::pending(PostNewUserView::Insert { user }) == (CommandView::Insert {
            collection: "user"@,
            record: RecordView::User(user),
        }),
{
}

/// Looking up a user asks the cache by the username, then the document store by
/// the username, and caches under the username.
pub proof fn lookup_commands(username: Seq<char>, user: UserView, json: Seq<u8>)
    ensures
        user_in_cache(username) == (CommandView::CacheGet { key: username }),
        user_in_store(username) == (CommandView::FindOne {
            kind: Kind::User,
            collection: "user"@,
            filter: seq![("username"@, FieldView::Text(username))],
        }),
        GetUser::pending(GetUserView::CacheGet { username }) == (CommandView::CacheGet {
            key: username,
        }),
        GetUser::pending(GetUserView::Decode { json }) == (CommandView::DecodeJson {
            kind: Kind::User,
            bytes: json,
        }),
        GetUser::pending(GetUserView::Find { username }) == (CommandView::FindOne {
            kind: Kind::User,
            collection: "user"@,
            filter: seq![("username"@, FieldView::Text(username))],
        }),
        GetUser::pending(GetUserView::Encode { username, user }) == (CommandView::EncodeJson {
            record: RecordView::User(user),
        }),
        GetUser::pending(GetUserView::CacheSet { username, user, json }) == (
        CommandView::CacheSet { key: username, value: json }),
{
}

/// Following asks to push the follower onto the followers of the user, to tell
/// the user of the follower, and to cache the user.
pub proof fn follow_commands(
    username: Seq<char>,
    follower: Seq<char>,
    user: UserView,
    payload: Seq<u8>,
    json: Seq<u8>,
)
    ensures
        PostUserFollow::pending(PostUserFollowView::UpdateUser { username, follower }) == (
        CommandView::FindOneAndUpdate {
            kind: Kind::User,
            collection: "user"@,
            filter: seq![("username"@, FieldView::Text(username))],
            update: seq![
                (
                    "$push"@,
                    FieldView::Nested(seq![("followers"@, FieldView::Text(follower))]),
                ),
            ],
            return_updated: true,
        }),
        PostUserFollow::pending(
            PostUserFollowView::EncodeNotification { username, follower, user },
        ) == (CommandView::EncodeJson {
            record: RecordView::Notification(
                NotificationView::NewFollower { username: follower },
            ),
        }),
        PostUserFollow::pending(PostUserFollowView::OpenChannel { username, user, payload })
            == CommandView::OpenChannel,
        PostUserFollow::pending(PostUserFollowView::Publish { username, user, payload }) == (
        CommandView::Publish { exchange: ""@, routing_key: user.username, payload }),
        PostUserFollow::pending(PostUserFollowView::EncodeUser { username, user }) == (
        CommandView::EncodeJson { record: RecordView::User(user) }),
        PostUserFollow::pending(PostUserFollowView::CacheUser { username, json }) == (
        CommandView::CacheSet { key: username, value: json }),
{
}

/// Publishing asks to store the post, to push its title onto the author's posts,
/// to cache the post under author, slash and title and the author's record
/// under the username, and to tell each follower of the post.
pub proof fn publication_commands(
    post: PostView,
    user: UserView,
    followers: Seq<Seq<char>>,
    follower: Seq<char>,
    waiting: Seq<Seq<char>>,
    payload: Seq<u8>,
    json: Seq<u8>,
)
    ensures
        PostNewPost::pending(PostNewPostView::Insert { post }) == (CommandView::Insert {
            collection: "post"@,
            record: RecordView::Post(post),
        }),
        PostNewPost::pending(PostNewPostView::UpdateUser { post }) == (
        CommandView::FindOneAndUpdate {
            kind: Kind::User,
            collection: "user"@,
            filter: seq![("username"@, FieldView::Text(post.author))],
            update: seq![
                ("$push"@, FieldView::Nested(seq![("posts"@, FieldView::Text(post.title))])),
            ],
            return_updated: true,
        }),
        PostNewPost::pending(PostNewPostView::EncodePost { post, user }) == (
        CommandView::EncodeJson { record: RecordView::Post(post) }),
        PostNewPost::pending(PostNewPostView::CachePost { post, user, json }) == (
        CommandView::CacheSet { key: post.author + "/"@ + post.title, value: json }),
        PostNewPost::pending(PostNewPostView::EncodeUser { post, user }) == (
        CommandView::EncodeJson { record: RecordView::User(user) }),
        PostNewPost::pending(PostNewPostView::CacheUser { post, user, json }) == (
        CommandView::CacheSet { key: user.username, value: json }),
        PostNewPost::pending(PostNewPostView::OpenChannel { post, followers })
            == CommandView::OpenChannel,
        PostNewPost::pending(PostNewPostView::EncodeNotification { post, followers }) == (
        CommandView::EncodeJson {
            record: RecordView::Notification(NotificationView::NewPost(post)),
        }),
        PostNewPost::pending(
            PostNewPostView::DeclareQueue { post, payload, follower, waiting },
        ) == (CommandView::DeclareQueue { queue: follower }),
        PostNewPost::pending(PostNewPostView::Publish { post, payload, follower, waiting }) == (
        CommandView::Publish { exchange: ""@, routing_key: follower, payload }),
{
}

/// Liking a post asks to push author and title of the post onto the liker's
/// posts, to count the post up by one, and to tell the author of the liker.
pub proof fn post_like_commands(
    username: Seq<char>,
    title: Seq<char>,
    liker: Seq<char>,
    user: UserView,
    payload: Seq<u8>,
)
    ensures
        PostPostLike::pending(PostPostLikeView::UpdateUser { username, title, liker }) == (
        CommandView::FindOneAndUpdate {
            kind: Kind::User,
            collection: "user"@,
            filter: seq![("username"@, FieldView::Text(liker))],
            update: seq![
                (
                    "$push"@,
                    FieldView::Nested(
                        seq![("likes_posts"@, FieldView::Texts(seq![username, title]))],
                    ),
                ),
            ],
            return_updated: true,
        }),
        PostPostLike::pending(PostPostLikeView::UpdatePost { username, title, user }) == (
        CommandView::FindOneAndUpdate {
            kind: Kind::Post,
            collection: "post"@,
            filter: seq![
                ("author"@, FieldView::Text(username)),
                ("title"@, FieldView::Text(title)),
            ],
            update: seq![
                ("$inc"@, FieldView::Nested(seq![("number_of_likes"@, FieldView::Int(1))])),
            ],
            return_updated: false,
        }),
        PostPostLike::pending(PostPostLikeView::EncodeNotification { username, title, user })
            == (CommandView::EncodeJson {
            record: RecordView::Notification(
                NotificationView::NewPostLike { title, liker: user.username },
            ),
        }),
        PostPostLike::pending(PostPostLikeView::OpenChannel { username, payload })
            == CommandView::OpenChannel,
        PostPostLike::pending(PostPostLikeView::Publish { username, payload }) == (
        CommandView::Publish { exchange: ""@, routing_key: username, payload }),
{
    let filter = text_field("author"@, username) + text_field("title"@, title);
    assert(filter =~= seq![
        ("author"@, FieldView::Text(username)),
        ("title"@, FieldView::Text(title)),
    ]);
}

/// Listing comments asks for the post by author and title, in the cache and in
/// the document store, and for the comments by author and title of the post.
pub proof fn listing_commands(
    username: Seq<char>,
    post_title: Seq<char>,
    json: Seq<u8>,
    comments: Seq<CommentView>,
)
    ensures
        comments_of(username, post_title) == seq![
            ("post_author"@, FieldView::Text(username)),
            ("post_title"@, FieldView::Text(post_title)),
        ],
        comments_in_store(username, post_title) == (CommandView::Find {
            kind: Kind::Comment,
            collection: "comment"@,
            filter: seq![
                ("post_author"@, FieldView::Text(username)),
                ("post_title"@, FieldView::Text(post_title)),
            ],
        }),
        GetPostComment::pending(GetPostCommentView::CacheGet { username, post_title }) == (
        CommandView::CacheGet { key: username + "/"@ + post_title }),
        GetPostComment::pending(GetPostCommentView::DecodePost { username, post_title, json })
            == (CommandView::DecodeJson { kind: Kind::Post, bytes: json }),
        GetPostComment::pending(GetPostCommentView::FindPost { username, post_title }) == (
        CommandView::FindOne {
            kind: Kind::Post,
            collection: "post"@,
            filter: seq![
                ("author"@, FieldView::Text(username)),
                ("title"@, FieldView::Text(post_title)),
            ],
        }),
        GetPostComment::pending(GetPostCommentView::FindComments { username, post_title }) == (
        CommandView::Find {
            kind: Kind::Comment,
            collection: "comment"@,
            filter: seq![
                ("post_author"@, FieldView::Text(username)),
                ("post_title"@, FieldView::Text(post_title)),
            ],
        }),
        GetPostComment::pending(GetPostCommentView::NextComment { comments }) == (
        CommandView::NextFound { kind: Kind::Comment }),
{
    let of_post = text_field("author"@, username) + text_field("title"@, post_title);
    assert(of_post =~= seq![
        ("author"@, FieldView::Text(username)),
        ("title"@, FieldView::Text(post_title)),
    ]);
    assert(comments_of(username, post_title) =~= seq![
        ("post_author"@, FieldView::Text(username)),
        ("post_title"@, FieldView::Text(post_title)),
    ]);
}

/// Commenting asks to push the comment's title onto the comments of the post, to
/// store the comment, to tell the author of the post of it, and to cache the
/// post under author, slash and title.
pub proof fn comment_commands(
    comment: CommentView,
    found: Option<PostView>,
    post: PostView,
    payload: Seq<u8>,
    json: Seq<u8>,
)
    ensures
        PostNewComment::pending(PostNewCommentView::UpdatePost { comment }) == (
        CommandView::FindOneAndUpdate {
            kind: Kind::Post,
            collection: "post"@,
            filter: seq![
                ("author"@, FieldView::Text(comment.post_author)),
                ("title"@, FieldView::Text(comment.post_title)),
            ],
            update: seq![
                (
                    "$push"@,
                    FieldView::Nested(seq![("comments"@, FieldView::Text(comment.title))]),
                ),
            ],
            return_updated: true,
        }),
        PostNewComment::pending(PostNewCommentView::Insert { comment, found }) == (
        CommandView::Insert { collection: "comment"@, record: RecordView::Comment(comment) }),
        PostNewComment::pending(PostNewCommentView::OpenChannel { comment, post })
            == CommandView::OpenChannel,
        PostNewComment::pending(PostNewCommentView::EncodeNotification { comment, post }) == (
        CommandView::EncodeJson {
            record: RecordView::Notification(NotificationView::NewComment(comment)),
        }),
        PostNewComment::pending(PostNewCommentView::Publish { comment, post, payload }) == (
        CommandView::Publish { exchange: ""@, routing_key: comment.post_author, payload }),
        PostNewComment::pending(PostNewCommentView::EncodePost { comment, post }) == (
        CommandView::EncodeJson { record: RecordView::Post(post) }),
        PostNewComment::pending(PostNewCommentView::CachePost { comment, json }) == (
        CommandView::CacheSet {
            key: comment.post_author + "/"@ + comment.post_title,
            value: json,
        }),
{
    let filter = text_field("author"@, comment.post_author) + text_field(
        "title"@,
        comment.post_title,
    );
    assert(filter =~= seq![
        ("author"@, FieldView::Text(comment.post_author)),
        ("title"@, FieldView::Text(comment.post_title)),
    ]);
}

/// Liking a comment asks to add the liker to the likers of the comment that is
/// named by its post and its title, and to tell the comment's author of the
/// liker.
pub proof fn comment_like_commands(
    user_id: Seq<char>,
    post_title: Seq<char>,
    comment_title: Seq<char>,
    liker: Seq<char>,
    comment: CommentView,
    payload: Seq<u8>,
)
    ensures
        comment_titled(user_id, post_title, comment_title) == seq![
            ("post_title"@, FieldView::Text(post_title)),
            ("post_author"@, FieldView::Text(user_id)),
            ("title"@, FieldView::Text(comment_title)),
        ],
        PostCommentLike::pending(
            PostCommentLikeView::UpdateComment { user_id, post_title, comment_title, liker },
        ) == (CommandView::FindOneAndUpdate {
            kind: Kind::Comment,
            collection: "comment"@,
            filter: seq![
                ("post_title"@, FieldView::Text(post_title)),
                ("post_author"@, FieldView::Text(user_id)),
                ("title"@, FieldView::Text(comment_title)),
            ],
            update: seq![
                (
                    "$addToSet"@,
                    FieldView::Nested(seq![("likers"@, FieldView::Text(liker))]),
                ),
            ],
            return_updated: true,
        }),
        PostCommentLike::pending(PostCommentLikeView::OpenChannel { comment, liker })
            == CommandView::OpenChannel,
        PostCommentLike::pending(PostCommentLikeView::EncodeNotification { comment, liker }) == (
        CommandView::EncodeJson {
            record: RecordView::Notification(NotificationView::NewCommentLike { comment, liker }),
        }),
        PostCommentLike::pending(PostCommentLikeView::Publish { comment, payload }) == (
        CommandView::Publish { exchange: ""@, routing_key: comment.author, payload }),
        PostCommentLike::pending(PostCommentLikeView::EncodeComment { comment }) == (
        CommandView::EncodeJson { record: RecordView::Comment(comment) }),
{
    assert(comment_titled(user_id, post_title, comment_title) =~= seq![
        ("post_title"@, FieldView::Text(post_title)),
        ("post_author"@, FieldView::Text(user_id)),
        ("title"@, FieldView::Text(comment_title)),
    ]);
}

/// Taking notifications asks for the queue of the username, and acknowledges
/// and decodes the message that was taken.
pub proof fn notification_commands(
    username: Seq<char>,
    received: Seq<NotificationView>,
    delivery: DeliveryView,
    data: Seq<u8>,
)
    ensures
        GetUserNotification::pending(GetUserNotificationView::OpenChannel { username })
            == CommandView::OpenChannel,
        GetUserNotification::pending(GetUserNotificationView::Fetch { username, received }) == (
        CommandView::Fetch { queue: username }),
        GetUserNotification::pending(
            GetUserNotificationView::Acknowledge { username, received, delivery },
        ) == (CommandView::Acknowledge { delivery_tag: delivery.delivery_tag }),
        GetUserNotification::pending(
            GetUserNotificationView::Decode { username, received, data },
        ) == (CommandView::DecodeJson { kind: Kind::Notification, bytes: data }),
{
}

} // verus!
