//! Requests that succeed: everything that is done for them, in order, and the
//! answer.
use vstd::prelude::*;

use crate::comment::{
    comment_titled, comments_in_store, CommentView, GetPostComment, GetPostCommentView,
    PostCommentLike, PostCommentLikeView, PostNewComment, PostNewCommentView,
};
use crate::conversation::{conversation, rest_of_conversation};
use crate::dialogue::{
    CacheValueView, CommandView, DeliveryView, FailureView, Kind, RecordView, ReplyView,
};
use crate::follow::{PostUserFollow, PostUserFollowView};
use crate::mongo::{operation, text_field, FieldView};
use crate::notification::{
    GetUserNotification, GetUserNotificationView, NotificationView,
};
use crate::post::{
    post_key, PostNewPost, PostNewPostView, PostPostLike, PostPostLikeView, PostView,
};
use crate::user::{
    user_in_cache, user_in_store, GetUser, GetUserView, PostNewUser, PostNewUserView, UserView,
};

verus! {

/// Registration: the user is stored and handed back.
pub proof fn new_user_is_stored(user: UserView, replies: Seq<ReplyView>)
    requires
        replies.len() >= 1,
        replies[0] == ReplyView::Done,
    ensures
        ({
            let talk = conversation::<PostNewUser>(PostNewUserView::Insert { user }, replies);
            &&& talk.asked == seq![
                CommandView::Insert { collection: "user"@, record: RecordView::User(user) },
            ]
            &&& talk.outcome == Some(Ok::<UserView, FailureView>(user))
        }),
{
}

/// A cached user is served from the cache: the document store is not asked,
/// and nothing is written.
pub proof fn cached_user_is_served(
    username: Seq<char>,
    json: Seq<u8>,
    user: UserView,
    replies: Seq<ReplyView>,
)
    requires
        replies.len() >= 2,
        replies[0] == ReplyView::Cached(CacheValueView::Data(json)),
        replies[1] == ReplyView::Decoded(RecordView::User(user)),
    ensures
        ({
            let talk = conversation::<GetUser>(GetUserView::CacheGet { username }, replies);
            &&& talk.asked == seq![
                user_in_cache(username),
                CommandView::DecodeJson { kind: Kind::User, bytes: json },
            ]
            &&& talk.outcome == Some(Ok::<UserView, FailureView>(user))
        }),
{
    reveal_with_fuel(rest_of_conversation, 3);
}

/// A user that is not cached is served from the document store, and the cache
/// gets the user under the key where it was looked for.
pub proof fn stored_user_is_served_and_cached(
    username: Seq<char>,
    user: UserView,
    json: Seq<u8>,
    replies: Seq<ReplyView>,
)
    requires
        replies.len() >= 4,
        replies[0] == ReplyView::Cached(CacheValueView::Nil),
        replies[1] == ReplyView::Found(Some(RecordView::User(user))),
        replies[2] == ReplyView::Encoded(json),
        replies[3] == ReplyView::Done,
    ensures
        ({
            let talk = conversation::<GetUser>(GetUserView::CacheGet { username }, replies);
            &&& talk.asked == seq![
                user_in_cache(username),
                user_in_store(username),
                CommandView::EncodeJson { record: RecordView::User(user) },
                CommandView::CacheSet { key: username, value: json },
            ]
            &&& talk.outcome == Some(Ok::<UserView, FailureView>(user))
        }),
{
    reveal_with_fuel(rest_of_conversation, 5);
}

/// The commands that notify each of `followers`, in order, of what `payload`
/// tells: the queue of each is declared just before the message is sent.
pub open spec fn announcements(followers: Seq<Seq<char>>, payload: Seq<u8>) -> Seq<CommandView>
    decreases followers.len(),
{
    if followers.len() == 0 {
        Seq::empty()
    } else {
        seq![
            CommandView::DeclareQueue { queue: followers[0] },
            CommandView::Publish { exchange: ""@, routing_key: followers[0], payload },
        ] + announcements(followers.drop_first(), payload)
    }
}

/// From the first follower on, every follower is notified.
proof fn lemma_announcements(
    post: PostView,
    payload: Seq<u8>,
    followers: Seq<Seq<char>>,
    replies: Seq<ReplyView>,
    from: nat,
)
    requires
        followers.len() > 0,
        from + 2 * followers.len() <= replies.len(),
        forall|i: int|
            from <= i < from + 2 * followers.len() ==> #[trigger] replies[i] == ReplyView::Done,
    ensures
        ({
            let talk = rest_of_conversation::<PostNewPost>(
                PostNewPostView::DeclareQueue {
                    post,
                    payload,
                    follower: followers[0],
                    waiting: followers.drop_first(),
                },
                replies,
                from,
            );
            &&& talk.asked == announcements(followers, payload)
            &&& talk.outcome == Some(Ok::<PostView, FailureView>(post))
        }),
    decreases followers.len(),
{
    reveal_with_fuel(rest_of_conversation, 3);
    reveal_with_fuel(announcements, 2);
    assert(replies[from as int] == ReplyView::Done);
    assert(replies[(from + 1) as int] == ReplyView::Done);
    let waiting = followers.drop_first();
    if waiting.len() > 0 {
        lemma_announcements(post, payload, waiting, replies, from + 2);
    } else {
        assert(announcements(waiting, payload) =~= Seq::empty());
    }
}

/// Publishing: the post is stored, the author's record gets its title, both
/// are cached, and then each follower of the author is notified, in the order
/// of the author's record. All get the same message: the JSON of a
/// notification of the post. The answer is the post.
pub proof fn new_post_is_announced(
    post: PostView,
    user: UserView,
    post_json: Seq<u8>,
    user_json: Seq<u8>,
    payload: Seq<u8>,
    replies: Seq<ReplyView>,
)
    requires
        replies.len() >= 8 + 2 * user.followers.len(),
        replies[0] == ReplyView::Done,
        replies[1] == ReplyView::Found(Some(RecordView::User(user))),
        replies[2] == ReplyView::Encoded(post_json),
        replies[3] == ReplyView::Done,
        replies[4] == ReplyView::Encoded(user_json),
        replies[5] == ReplyView::Done,
        replies[6] == ReplyView::Done,
        replies[7] == ReplyView::Encoded(payload),
        forall|i: int|
            8 <= i < 8 + 2 * user.followers.len() ==> #[trigger] replies[i] == ReplyView::Done,
    ensures
        ({
            let talk = conversation::<PostNewPost>(PostNewPostView::Insert { post }, replies);
            &&& talk.asked == seq![
                CommandView::Insert { collection: "post"@, record: RecordView::Post(post) },
                CommandView::FindOneAndUpdate {
                    kind: Kind::User,
                    collection: "user"@,
                    filter: text_field("username"@, post.author),
                    update: operation("$push"@, "posts"@, FieldView::Text(post.title)),
                    return_updated: true,
                },
                CommandView::EncodeJson { record: RecordView::Post(post) },
                CommandView::CacheSet {
                    key: post_key(post.author, post.title),
                    value: post_json,
                },
                CommandView::EncodeJson { record: RecordView::User(user) },
                CommandView::CacheSet { key: user.username, value: user_json },
                CommandView::OpenChannel,
                CommandView::EncodeJson {
                    record: RecordView::Notification(NotificationView::NewPost(post)),
                },
            ] + announcements(user.followers, payload)
            &&& talk.outcome == Some(Ok::<PostView, FailureView>(post))
        }),
{
    reveal_with_fuel(rest_of_conversation, 9);
    if user.followers.len() > 0 {
        lemma_announcements(post, payload, user.followers, replies, 8);
    }
}

/// Following: the user's record gets the follower, the user is notified, and
/// the updated record is cached.
pub proof fn follower_is_added_and_announced(
    username: Seq<char>,
    follower: Seq<char>,
    user: UserView,
    payload: Seq<u8>,
    user_json: Seq<u8>,
    replies: Seq<ReplyView>,
)
    requires
        replies.len() >= 6,
        replies[0] == ReplyView::Found(Some(RecordView::User(user))),
        replies[1] == ReplyView::Encoded(payload),
        replies[2] == ReplyView::Done,
        replies[3] == ReplyView::Done,
        replies[4] == ReplyView::Encoded(user_json),
        replies[5] == ReplyView::Done,
    ensures
        ({
            let talk = conversation::<PostUserFollow>(
                PostUserFollowView::UpdateUser { username, follower },
                replies,
            );
            &&& talk.asked == seq![
                CommandView::FindOneAndUpdate {
                    kind: Kind::User,
                    collection: "user"@,
                    filter: text_field("username"@, username),
                    update: operation("$push"@, "followers"@, FieldView::Text(follower)),
                    return_updated: true,
                },
                CommandView::EncodeJson {
                    record: RecordView::Notification(
                        NotificationView::NewFollower { username: follower },
                    ),
                },
                CommandView::OpenChannel,
                CommandView::Publish { exchange: ""@, routing_key: user.username, payload },
                CommandView::EncodeJson { record: RecordView::User(user) },
                CommandView::CacheSet { key: username, value: user_json },
            ]
            &&& talk.outcome == Some(Ok::<(), FailureView>(()))
        }),
{
    reveal_with_fuel(rest_of_conversation, 7);
}

/// Liking a post: the record of the liker gets the post, the post is counted
/// up, whether it is there or not, and the user whose post it is is notified of
/// the liker.
pub proof fn post_like_is_recorded_and_announced(
    username: Seq<char>,
    title: Seq<char>,
    liker: Seq<char>,
    user: UserView,
    counted: Option<PostView>,
    payload: Seq<u8>,
    replies: Seq<ReplyView>,
)
    requires
        replies.len() >= 5,
        replies[0] == ReplyView::Found(Some(RecordView::User(user))),
        replies[1] == ReplyView::Found(
            match counted {
                Some(post) => Some(RecordView::Post(post)),
                None => None,
            },
        ),
        replies[2] == ReplyView::Encoded(payload),
        replies[3] == ReplyView::Done,
        replies[4] == ReplyView::Done,
    ensures
        ({
            let talk = conversation::<PostPostLike>(
                PostPostLikeView::UpdateUser { username, title, liker },
                replies,
            );
            &&& talk.asked == seq![
                CommandView::FindOneAndUpdate {
                    kind: Kind::User,
                    collection: "user"@,
                    filter: text_field("username"@, liker),
                    update: operation(
                        "$push"@,
                        "likes_posts"@,
                        FieldView::Texts(seq![username, title]),
                    ),
                    return_updated: true,
                },
                CommandView::FindOneAndUpdate {
                    kind: Kind::Post,
                    collection: "post"@,
                    filter: text_field("author"@, username) + text_field("title"@, title),
                    update: operation("$inc"@, "number_of_likes"@, FieldView::Int(1)),
                    return_updated: false,
                },
                CommandView::EncodeJson {
                    record: RecordView::Notification(
                        NotificationView::NewPostLike { title, liker: user.username },
                    ),
                },
                CommandView::OpenChannel,
                CommandView::Publish { exchange: ""@, routing_key: username, payload },
            ]
            &&& talk.outcome == Some(Ok::<(), FailureView>(()))
        }),
{
    reveal_with_fuel(rest_of_conversation, 6);
}

/// As often as there is another comment, the handler asks for the next one.
proof fn lemma_comments_are_collected(
    before: Seq<CommentView>,
    comments: Seq<CommentView>,
    replies: Seq<ReplyView>,
    from: nat,
)
    requires
        from + comments.len() < replies.len(),
        forall|i: int|
            0 <= i < comments.len() ==> replies[from + i] == ReplyView::Found(
                Some(RecordView::Comment(#[trigger] comments[i])),
            ),
        replies[(from + comments.len()) as int] == ReplyView::Found(None),
    ensures
        ({
            let talk = rest_of_conversation::<GetPostComment>(
                GetPostCommentView::NextComment { comments: before },
                replies,
                from,
            );
            &&& talk.asked == Seq::new(
                comments.len() + 1,
                |i: int| CommandView::NextFound { kind: Kind::Comment },
            )
            &&& talk.outcome == Some(Ok::<Seq<CommentView>, FailureView>(before + comments))
        }),
    decreases comments.len(),
{
    reveal_with_fuel(rest_of_conversation, 2);
    if comments.len() == 0 {
        assert(before + comments =~= before);
    } else {
        let later = comments.drop_first();
        assert(replies[from + 0int] == ReplyView::Found(
            Some(RecordView::Comment(comments[0])),
        ));
        assert forall|i: int| 0 <= i < later.len() implies replies[(from + 1) + i]
            == ReplyView::Found(Some(RecordView::Comment(#[trigger] later[i]))) by {
            assert(later[i] == comments[i + 1]);
        }
        lemma_comments_are_collected(before.push(comments[0]), later, replies, from + 1);
        assert(before.push(comments[0]) + later =~= before + comments);
    }
}

/// The commands that list the comments on a post: those that match it, one
/// after the other, until there is none left.
pub open spec fn listing(
    username: Seq<char>,
    post_title: Seq<char>,
    number_of_comments: nat,
) -> Seq<CommandView> {
    seq![
        comments_in_store(username, post_title),
    ] + Seq::new(number_of_comments + 1, |i: int| CommandView::NextFound { kind: Kind::Comment })
}

/// Listing the comments on a cached post: the answer is what the document
/// store has, all of it, in its order.
pub proof fn comments_on_cached_post_are_listed(
    username: Seq<char>,
    post_title: Seq<char>,
    json: Seq<u8>,
    post: PostView,
    comments: Seq<CommentView>,
    replies: Seq<ReplyView>,
)
    requires
        replies.len() > 3 + comments.len(),
        replies[0] == ReplyView::Cached(CacheValueView::Data(json)),
        replies[1] == ReplyView::Decoded(RecordView::Post(post)),
        replies[2] == ReplyView::Done,
        forall|i: int|
            0 <= i < comments.len() ==> replies[3 + i] == ReplyView::Found(
                Some(RecordView::Comment(#[trigger] comments[i])),
            ),
        replies[(3 + comments.len()) as int] == ReplyView::Found(None),
    ensures
        ({
            let talk = conversation::<GetPostComment>(
                GetPostCommentView::CacheGet { username, post_title },
                replies,
            );
            &&& talk.asked == seq![
                CommandView::CacheGet { key: post_key(username, post_title) },
                CommandView::DecodeJson { kind: Kind::Post, bytes: json },
            ] + listing(username, post_title, comments.len())
            &&& talk.outcome == Some(Ok::<Seq<CommentView>, FailureView>(comments))
        }),
{
    reveal_with_fuel(rest_of_conversation, 4);
    lemma_comments_are_collected(Seq::empty(), comments, replies, 3);
    assert(Seq::<CommentView>::empty() + comments =~= comments);
}

/// Listing the comments on a post that is not cached: the document store has
/// to have the post. The answer is what the document store has, all of it, in
/// its order.
pub proof fn comments_on_stored_post_are_listed(
    username: Seq<char>,
    post_title: Seq<char>,
    post: PostView,
    comments: Seq<CommentView>,
    replies: Seq<ReplyView>,
)
    requires
        replies.len() > 3 + comments.len(),
        replies[0] == ReplyView::Cached(CacheValueView::Nil),
        replies[1] == ReplyView::Found(Some(RecordView::Post(post))),
        replies[2] == ReplyView::Done,
        forall|i: int|
            0 <= i < comments.len() ==> replies[3 + i] == ReplyView::Found(
                Some(RecordView::Comment(#[trigger] comments[i])),
            ),
        replies[(3 + comments.len()) as int] == ReplyView::Found(None),
    ensures
        ({
            let talk = conversation::<GetPostComment>(
                GetPostCommentView::CacheGet { username, post_title },
                replies,
            );
            &&& talk.asked == seq![
                CommandView::CacheGet { key: post_key(username, post_title) },
                CommandView::FindOne {
                    kind: Kind::Post,
                    collection: "post"@,
                    filter: text_field("author"@, username) + text_field("title"@, post_title),
                },
            ] + listing(username, post_title, comments.len())
            &&& talk.outcome == Some(Ok::<Seq<CommentView>, FailureView>(comments))
        }),
{
    reveal_with_fuel(rest_of_conversation, 4);
    lemma_comments_are_collected(Seq::empty(), comments, replies, 3);
    assert(Seq::<CommentView>::empty() + comments =~= comments);
}

/// Commenting: the post gets the comment's title, the comment is stored, the
/// author of the post is notified, and the updated post is cached. The answer
/// is the comment.
pub proof fn new_comment_is_stored_and_announced(
    comment: CommentView,
    post: PostView,
    payload: Seq<u8>,
    post_json: Seq<u8>,
    replies: Seq<ReplyView>,
)
    requires
        replies.len() >= 7,
        replies[0] == ReplyView::Found(Some(RecordView::Post(post))),
        replies[1] == ReplyView::Done,
        replies[2] == ReplyView::Done,
        replies[3] == ReplyView::Encoded(payload),
        replies[4] == ReplyView::Done,
        replies[5] == ReplyView::Encoded(post_json),
        replies[6] == ReplyView::Done,
    ensures
        ({
            let talk = conversation::<PostNewComment>(
                PostNewCommentView::UpdatePost { comment },
                replies,
            );
            &&& talk.asked == seq![
                CommandView::FindOneAndUpdate {
                    kind: Kind::Post,
                    collection: "post"@,
                    filter: text_field("author"@, comment.post_author) + text_field(
                        "title"@,
                        comment.post_title,
                    ),
                    update: operation("$push"@, "comments"@, FieldView::Text(comment.title)),
                    return_updated: true,
                },
                CommandView::Insert {
                    collection: "comment"@,
                    record: RecordView::Comment(comment),
                },
                CommandView::OpenChannel,
                CommandView::EncodeJson {
                    record: RecordView::Notification(NotificationView::NewComment(comment)),
                },
                CommandView::Publish {
                    exchange: ""@,
                    routing_key: comment.post_author,
                    payload,
                },
                CommandView::EncodeJson { record: RecordView::Post(post) },
                CommandView::CacheSet {
                    key: post_key(comment.post_author, comment.post_title),
                    value: post_json,
                },
            ]
            &&& talk.outcome == Some(Ok::<CommentView, FailureView>(comment))
        }),
{
    reveal_with_fuel(rest_of_conversation, 8);
}

/// Liking a comment: the comment gets the liker, and its author is notified.
/// The answer is the updated comment.
pub proof fn comment_like_is_recorded_and_announced(
    user_id: Seq<char>,
    post_title: Seq<char>,
    comment_title: Seq<char>,
    liker: Seq<char>,
    comment: CommentView,
    payload: Seq<u8>,
    json: Seq<u8>,
    replies: Seq<ReplyView>,
)
    requires
        replies.len() >= 5,
        replies[0] == ReplyView::Found(Some(RecordView::Comment(comment))),
        replies[1] == ReplyView::Done,
        replies[2] == ReplyView::Encoded(payload),
        replies[3] == ReplyView::Done,
        replies[4] == ReplyView::Encoded(json),
    ensures
        ({
            let talk = conversation::<PostCommentLike>(
                PostCommentLikeView::UpdateComment {
                    user_id,
                    post_title,
                    comment_title,
                    liker,
                },
                replies,
            );
            &&& talk.asked == seq![
                CommandView::FindOneAndUpdate {
                    kind: Kind::Comment,
                    collection: "comment"@,
                    filter: comment_titled(user_id, post_title, comment_title),
                    update: operation("$addToSet"@, "likers"@, FieldView::Text(liker)),
                    return_updated: true,
                },
                CommandView::OpenChannel,
                CommandView::EncodeJson {
                    record: RecordView::Notification(
                        NotificationView::NewCommentLike { comment, liker },
                    ),
                },
                CommandView::Publish {
                    exchange: ""@,
                    routing_key: comment.author,
                    payload,
                },
                CommandView::EncodeJson { record: RecordView::Comment(comment) },
            ]
            &&& talk.outcome == Some(Ok::<CommentView, FailureView>(comment))
        }),
{
    reveal_with_fuel(rest_of_conversation, 6);
}

/// The commands that take `deliveries` out of the queue of a user: each is
/// fetched, then acknowledged, then decoded. At last the queue is found
/// empty.
pub open spec fn withdrawals(username: Seq<char>, deliveries: Seq<DeliveryView>) -> Seq<
    CommandView,
>
    decreases deliveries.len(),
{
    if deliveries.len() == 0 {
        seq![CommandView::Fetch { queue: username }]
    } else {
        seq![
            CommandView::Fetch { queue: username },
            CommandView::Acknowledge { delivery_tag: deliveries[0].delivery_tag },
            CommandView::DecodeJson { kind: Kind::Notification, bytes: deliveries[0].data },
        ] + withdrawals(username, deliveries.drop_first())
    }
}

/// As often as there is another message, the handler fetches, acknowledges
/// and decodes it.
proof fn lemma_withdrawals(
    username: Seq<char>,
    before: Seq<NotificationView>,
    deliveries: Seq<DeliveryView>,
    notifications: Seq<NotificationView>,
    replies: Seq<ReplyView>,
    from: nat,
)
    requires
        deliveries.len() == notifications.len(),
        from + 3 * deliveries.len() < replies.len(),
        forall|i: int|
            0 <= i < deliveries.len() ==> {
                &&& replies[from + 3 * i] == ReplyView::Fetched(Some(#[trigger] deliveries[i]))
                &&& replies[from + 3 * i + 1] == ReplyView::Done
                &&& replies[from + 3 * i + 2] == ReplyView::Decoded(
                    RecordView::Notification(notifications[i]),
                )
            },
        replies[(from + 3 * deliveries.len()) as int] == ReplyView::Fetched(None),
    ensures
        ({
            let talk = rest_of_conversation::<GetUserNotification>(
                GetUserNotificationView::Fetch { username, received: before },
                replies,
                from,
            );
            &&& talk.asked == withdrawals(username, deliveries)
            &&& talk.outcome == Some(
                Ok::<Seq<NotificationView>, FailureView>(before + notifications),
            )
        }),
    decreases deliveries.len(),
{
    reveal_with_fuel(rest_of_conversation, 4);
    reveal_with_fuel(withdrawals, 2);
    if deliveries.len() == 0 {
        assert(before + notifications =~= before);
    } else {
        let later = deliveries.drop_first();
        let later_notifications = notifications.drop_first();
        let next = before.push(notifications[0]);
        assert(replies[from + 3 * 0int] == ReplyView::Fetched(Some(deliveries[0])));
        assert forall|i: int| 0 <= i < later.len() implies {
            &&& replies[(from + 3) + 3 * i] == ReplyView::Fetched(Some(#[trigger] later[i]))
            &&& replies[(from + 3) + 3 * i + 1] == ReplyView::Done
            &&& replies[(from + 3) + 3 * i + 2] == ReplyView::Decoded(
                RecordView::Notification(later_notifications[i]),
            )
        } by {
            assert(later[i] == deliveries[i + 1]);
        }
        lemma_withdrawals(username, next, later, later_notifications, replies, from + 3);
        assert(next + later_notifications =~= before + notifications);
    }
}

/// Taking notifications: the answer is what the messages in the user's queue
/// stand for, all of them, in the order of the queue. Each message is
/// acknowledged once.
pub proof fn notifications_are_withdrawn(
    username: Seq<char>,
    deliveries: Seq<DeliveryView>,
    notifications: Seq<NotificationView>,
    replies: Seq<ReplyView>,
)
    requires
        deliveries.len() == notifications.len(),
        1 + 3 * deliveries.len() < replies.len(),
        replies[0] == ReplyView::Done,
        forall|i: int|
            0 <= i < deliveries.len() ==> {
                &&& replies[1 + 3 * i] == ReplyView::Fetched(Some(#[trigger] deliveries[i]))
                &&& replies[1 + 3 * i + 1] == ReplyView::Done
                &&& replies[1 + 3 * i + 2] == ReplyView::Decoded(
                    RecordView::Notification(notifications[i]),
                )
            },
        replies[(1 + 3 * deliveries.len()) as int] == ReplyView::Fetched(None),
    ensures
        ({
            let talk = conversation::<GetUserNotification>(
                GetUserNotificationView::OpenChannel { username },
                replies,
            );
            &&& talk.asked == seq![CommandView::OpenChannel] + withdrawals(username, deliveries)
            &&& talk.outcome == Some(Ok::<Seq<NotificationView>, FailureView>(notifications))
        }),
{
    reveal_with_fuel(rest_of_conversation, 2);
    lemma_withdrawals(username, Seq::empty(), deliveries, notifications, replies, 1);
    assert(Seq::<NotificationView>::empty() + notifications =~= notifications);
}

} // verus!
