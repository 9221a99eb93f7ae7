//! What requests never do, whatever is replied, and on what the messages and
//! cache entries that they send depend.
use vstd::prelude::*;

use crate::comment::{
    CommentView, GetPostComment, GetPostCommentView, PostCommentLike, PostCommentLikeView,
    PostNewComment, PostNewCommentView,
};
use crate::conversation::{commands_are_pending, conversation, reached, reached_states_ask};
use crate::dialogue::{CommandView, RecordView, ReplyView};
use crate::follow::{PostUserFollow, PostUserFollowView};
use crate::notification::{GetUserNotification, GetUserNotificationView, NotificationView};
use crate::post::{
    post_key, PostNewPost, PostNewPostView, PostPostLike, PostPostLikeView, PostView,
};
use crate::user::{user_in_store, GetUser, GetUserView};

verus! {

/// Whether the command leaves the document store, the cache and the queues as
/// they are.
pub open spec fn only_reads(command: CommandView) -> bool {
    match command {
        CommandView::Insert { .. } => false,
        CommandView::FindOneAndUpdate { .. } => false,
        CommandView::CacheSet { .. } => false,
        CommandView::DeclareQueue { .. } => false,
        CommandView::Publish { .. } => false,
        CommandView::Fetch { .. } => false,
        CommandView::Acknowledge { .. } => false,
        _ => true,
    }
}

/// Looking up a user changes nothing but the cache, and the cache only under
/// the key that was looked up: it gets the JSON of the user that the document
/// store has.
pub proof fn lookup_only_caches(username: Seq<char>, replies: Seq<ReplyView>, number: nat)
    requires
        number < conversation::<GetUser>(
            GetUserView::CacheGet { username },
            replies,
        ).asked.len(),
    ensures
        ({
            let asked = conversation::<GetUser>(
                GetUserView::CacheGet { username },
                replies,
            ).asked;
            match asked[number as int] {
                CommandView::CacheSet { key, value } => {
                    &&& number == 3
                    &&& key == username
                    &&& asked[1] == user_in_store(username)
                    &&& replies[1] matches ReplyView::Found(Some(record))
                    &&& asked[2] == CommandView::EncodeJson { record }
                    &&& replies[2] == ReplyView::Encoded(value)
                },
                command => only_reads(command),
            }
        }),
{
    let start = GetUserView::CacheGet { username };
    commands_are_pending::<GetUser>(start, replies, number);
    reveal_with_fuel(reached, 5);
    if number == 3 {
        commands_are_pending::<GetUser>(start, replies, 1);
        commands_are_pending::<GetUser>(start, replies, 2);
    }
}

/// Listing comments changes nothing.
pub proof fn listing_only_reads(
    username: Seq<char>,
    post_title: Seq<char>,
    replies: Seq<ReplyView>,
    number: nat,
)
    requires
        number < conversation::<GetPostComment>(
            GetPostCommentView::CacheGet { username, post_title },
            replies,
        ).asked.len(),
    ensures
        only_reads(
            conversation::<GetPostComment>(
                GetPostCommentView::CacheGet { username, post_title },
                replies,
            ).asked[number as int],
        ),
{
    commands_are_pending::<GetPostComment>(
        GetPostCommentView::CacheGet { username, post_title },
        replies,
        number,
    );
}

/// Where a request for notifications is after a number of replies.
proof fn lemma_notifications_reached(username: Seq<char>, replies: Seq<ReplyView>, number: nat)
    ensures
        reached::<GetUserNotification>(
            GetUserNotificationView::OpenChannel { username },
            replies,
            number,
        ) matches Some(state) ==> match state {
            GetUserNotificationView::OpenChannel { .. } => number == 0,
            GetUserNotificationView::Fetch { username: queue, .. } => {
                &&& number > 0
                &&& queue == username
            },
            GetUserNotificationView::Acknowledge { username: queue, delivery, .. } => {
                &&& number > 1
                &&& queue == username
                &&& replies[number - 1] == ReplyView::Fetched(Some(delivery))
            },
            GetUserNotificationView::Decode { username: queue, data, .. } => {
                &&& number > 2
                &&& queue == username
                &&& replies[number - 2] matches ReplyView::Fetched(Some(delivery))
                &&& delivery.data == data
            },
        },
    decreases number,
{
    if number > 0 {
        lemma_notifications_reached(username, replies, (number - 1) as nat);
    }
}

/// Taking notifications touches no queue but that of the user, and
/// acknowledges nothing but the message that was just taken from it.
pub proof fn only_own_messages_are_taken(
    username: Seq<char>,
    replies: Seq<ReplyView>,
    number: nat,
)
    requires
        number < conversation::<GetUserNotification>(
            GetUserNotificationView::OpenChannel { username },
            replies,
        ).asked.len(),
    ensures
        ({
            let asked = conversation::<GetUserNotification>(
                GetUserNotificationView::OpenChannel { username },
                replies,
            ).asked;
            match asked[number as int] {
                CommandView::Fetch { queue } => queue == username,
                CommandView::Acknowledge { delivery_tag } => {
                    &&& asked[number - 1] == CommandView::Fetch { queue: username }
                    &&& replies[number - 1] matches ReplyView::Fetched(Some(delivery))
                    &&& delivery.delivery_tag == delivery_tag
                },
                command => only_reads(command),
            }
        }),
{
    let start = GetUserNotificationView::OpenChannel { username };
    commands_are_pending::<GetUserNotification>(start, replies, number);
    lemma_notifications_reached(username, replies, number);
    if number > 0 {
        let before = (number - 1) as nat;
        commands_are_pending::<GetUserNotification>(start, replies, before);
        lemma_notifications_reached(username, replies, before);
    }
}

/// A message that was taken from the queue is acknowledged next.
pub proof fn taken_messages_are_acknowledged(
    username: Seq<char>,
    replies: Seq<ReplyView>,
    number: nat,
)
    requires
        number < conversation::<GetUserNotification>(
            GetUserNotificationView::OpenChannel { username },
            replies,
        ).asked.len(),
        number < replies.len(),
        replies[number as int] matches ReplyView::Fetched(Some(_)),
        conversation::<GetUserNotification>(
            GetUserNotificationView::OpenChannel { username },
            replies,
        ).asked[number as int] is Fetch,
    ensures
        ({
            let asked = conversation::<GetUserNotification>(
                GetUserNotificationView::OpenChannel { username },
                replies,
            ).asked;
            &&& number + 1 < asked.len()
            &&& replies[number as int] matches ReplyView::Fetched(Some(delivery))
            &&& asked[(number + 1) as int] == CommandView::Acknowledge {
                delivery_tag: delivery.delivery_tag,
            }
        }),
{
    let start = GetUserNotificationView::OpenChannel { username };
    commands_are_pending::<GetUserNotification>(start, replies, number);
    assert(reached::<GetUserNotification>(start, replies, number + 1) is Some);
    reached_states_ask::<GetUserNotification>(start, replies, number + 1);
    commands_are_pending::<GetUserNotification>(start, replies, number + 1);
}

/// A follow sends nothing but the news of the follower, to the user whose
/// record got the follower, and caches nothing but that record.
pub proof fn follow_sends_to_found_user(
    username: Seq<char>,
    follower: Seq<char>,
    replies: Seq<ReplyView>,
    number: nat,
)
    requires
        number < conversation::<PostUserFollow>(
            PostUserFollowView::UpdateUser { username, follower },
            replies,
        ).asked.len(),
    ensures
        ({
            let asked = conversation::<PostUserFollow>(
                PostUserFollowView::UpdateUser { username, follower },
                replies,
            ).asked;
            match asked[number as int] {
                CommandView::Publish { exchange, routing_key, payload } => {
                    &&& exchange == ""@
                    &&& replies[0] matches ReplyView::Found(Some(RecordView::User(user)))
                    &&& routing_key == user.username
                    &&& asked[1] == CommandView::EncodeJson {
                        record: RecordView::Notification(
                            NotificationView::NewFollower { username: follower },
                        ),
                    }
                    &&& replies[1] == ReplyView::Encoded(payload)
                },
                CommandView::CacheSet { key, value } => {
                    &&& key == username
                    &&& replies[0] matches ReplyView::Found(Some(record))
                    &&& asked[4] == CommandView::EncodeJson { record }
                    &&& replies[4] == ReplyView::Encoded(value)
                },
                CommandView::FindOneAndUpdate { .. } => number == 0,
                command => only_reads(command),
            }
        }),
{
    let start = PostUserFollowView::UpdateUser { username, follower };
    commands_are_pending::<PostUserFollow>(start, replies, number);
    reveal_with_fuel(reached, 7);
    if number > 1 {
        commands_are_pending::<PostUserFollow>(start, replies, 1);
    }
    if number > 4 {
        commands_are_pending::<PostUserFollow>(start, replies, 4);
    }
}

/// A like of a post sends nothing but the news of the like, to the user whose
/// post it is, and caches nothing. The liker that it names is the user whose
/// record got the like.
pub proof fn post_like_sends_to_post_owner(
    username: Seq<char>,
    title: Seq<char>,
    liker: Seq<char>,
    replies: Seq<ReplyView>,
    number: nat,
)
    requires
        number < conversation::<PostPostLike>(
            PostPostLikeView::UpdateUser { username, title, liker },
            replies,
        ).asked.len(),
    ensures
        ({
            let asked = conversation::<PostPostLike>(
                PostPostLikeView::UpdateUser { username, title, liker },
                replies,
            ).asked;
            match asked[number as int] {
                CommandView::Publish { exchange, routing_key, payload } => {
                    &&& exchange == ""@
                    &&& routing_key == username
                    &&& replies[0] matches ReplyView::Found(Some(RecordView::User(user)))
                    &&& asked[2] == CommandView::EncodeJson {
                        record: RecordView::Notification(
                            NotificationView::NewPostLike { title, liker: user.username },
                        ),
                    }
                    &&& replies[2] == ReplyView::Encoded(payload)
                },
                CommandView::FindOneAndUpdate { .. } => number <= 1,
                command => only_reads(command),
            }
        }),
{
    let start = PostPostLikeView::UpdateUser { username, title, liker };
    commands_are_pending::<PostPostLike>(start, replies, number);
    reveal_with_fuel(reached, 6);
    if number > 2 {
        commands_are_pending::<PostPostLike>(start, replies, 2);
    }
}

/// A comment sends nothing but the news of the comment, to the author of the
/// post, which must exist, and caches nothing but the updated post.
pub proof fn comment_sends_to_post_author(
    comment: CommentView,
    replies: Seq<ReplyView>,
    number: nat,
)
    requires
        number < conversation::<PostNewComment>(
            PostNewCommentView::UpdatePost { comment },
            replies,
        ).asked.len(),
    ensures
        ({
            let asked = conversation::<PostNewComment>(
                PostNewCommentView::UpdatePost { comment },
                replies,
            ).asked;
            match asked[number as int] {
                CommandView::Publish { exchange, routing_key, payload } => {
                    &&& exchange == ""@
                    &&& routing_key == comment.post_author
                    &&& replies[0] matches ReplyView::Found(Some(_))
                    &&& replies[1] == ReplyView::Done
                    &&& asked[3] == CommandView::EncodeJson {
                        record: RecordView::Notification(NotificationView::NewComment(comment)),
                    }
                    &&& replies[3] == ReplyView::Encoded(payload)
                },
                CommandView::CacheSet { key, value } => {
                    &&& key == post_key(comment.post_author, comment.post_title)
                    &&& replies[0] matches ReplyView::Found(Some(record))
                    &&& asked[5] == CommandView::EncodeJson { record }
                    &&& replies[5] == ReplyView::Encoded(value)
                },
                CommandView::FindOneAndUpdate { .. } => number == 0,
                CommandView::Insert { collection, record } => {
                    &&& number == 1
                    &&& collection == "comment"@
                    &&& record == RecordView::Comment(comment)
                },
                command => only_reads(command),
            }
        }),
{
    let start = PostNewCommentView::UpdatePost { comment };
    commands_are_pending::<PostNewComment>(start, replies, number);
    reveal_with_fuel(reached, 8);
    if number > 3 {
        commands_are_pending::<PostNewComment>(start, replies, 3);
    }
    if number > 5 {
        commands_are_pending::<PostNewComment>(start, replies, 5);
    }
}

/// A like of a comment sends nothing but the news of the like, to the author
/// of the comment that got the like, and caches nothing.
pub proof fn comment_like_sends_to_comment_author(
    user_id: Seq<char>,
    post_title: Seq<char>,
    comment_title: Seq<char>,
    liker: Seq<char>,
    replies: Seq<ReplyView>,
    number: nat,
)
    requires
        number < conversation::<PostCommentLike>(
            PostCommentLikeView::UpdateComment { user_id, post_title, comment_title, liker },
            replies,
        ).asked.len(),
    ensures
        ({
            let asked = conversation::<PostCommentLike>(
                PostCommentLikeView::UpdateComment { user_id, post_title, comment_title, liker },
                replies,
            ).asked;
            match asked[number as int] {
                CommandView::Publish { exchange, routing_key, payload } => {
                    &&& exchange == ""@
                    &&& replies[0] matches ReplyView::Found(Some(RecordView::Comment(comment)))
                    &&& routing_key == comment.author
                    &&& asked[2] == CommandView::EncodeJson {
                        record: RecordView::Notification(
                            NotificationView::NewCommentLike { comment, liker },
                        ),
                    }
                    &&& replies[2] == ReplyView::Encoded(payload)
                },
                CommandView::FindOneAndUpdate { .. } => number == 0,
                command => only_reads(command),
            }
        }),
{
    let start = PostCommentLikeView::UpdateComment {
        user_id,
        post_title,
        comment_title,
        liker,
    };
    commands_are_pending::<PostCommentLike>(start, replies, number);
    reveal_with_fuel(reached, 6);
    if number > 2 {
        commands_are_pending::<PostCommentLike>(start, replies, 2);
    }
}

/// Where the publication of a post is after a number of replies.
pub(crate) proof fn lemma_publication_reached(post: PostView, replies: Seq<ReplyView>, number: nat)
    ensures
        reached::<PostNewPost>(PostNewPostView::Insert { post }, replies, number) matches Some(
            state,
        ) ==> match state {
            PostNewPostView::Insert { post: published } => number == 0 && published == post,
            PostNewPostView::UpdateUser { post: published } => number == 1 && published == post
                && replies[0] == ReplyView::Done,
            PostNewPostView::EncodePost { post: published, user } => {
                &&& number == 2
                &&& published == post
                &&& replies[1] == ReplyView::Found(Some(RecordView::User(user)))
            },
            PostNewPostView::CachePost { post: published, user, json } => {
                &&& number == 3
                &&& published == post
                &&& replies[1] == ReplyView::Found(Some(RecordView::User(user)))
                &&& replies[2] == ReplyView::Encoded(json)
            },
            PostNewPostView::EncodeUser { post: published, user } => {
                &&& number == 4
                &&& published == post
                &&& replies[1] == ReplyView::Found(Some(RecordView::User(user)))
            },
            PostNewPostView::CacheUser { post: published, user, json } => {
                &&& number == 5
                &&& published == post
                &&& replies[1] == ReplyView::Found(Some(RecordView::User(user)))
                &&& replies[4] == ReplyView::Encoded(json)
            },
            PostNewPostView::OpenChannel { post: published, followers } => {
                &&& number == 6
                &&& published == post
                &&& replies[1] matches ReplyView::Found(Some(RecordView::User(user)))
                &&& followers == user.followers
            },
            PostNewPostView::EncodeNotification { post: published, followers } => {
                &&& number == 7
                &&& published == post
                &&& replies[1] matches ReplyView::Found(Some(RecordView::User(user)))
                &&& followers == user.followers
            },
            PostNewPostView::DeclareQueue { post: published, payload, follower, waiting } => {
                &&& number >= 8
                &&& number % 2 == 0
                &&& published == post
                &&& replies[7] == ReplyView::Encoded(payload)
                &&& replies[1] matches ReplyView::Found(Some(RecordView::User(user)))
                &&& seq![follower] + waiting == user.followers.skip((number - 8) / 2)
                &&& (number - 8) / 2 < user.followers.len()
            },
            PostNewPostView::Publish { post: published, payload, follower, waiting } => {
                &&& number >= 9
                &&& number % 2 == 1
                &&& published == post
                &&& replies[7] == ReplyView::Encoded(payload)
                &&& replies[1] matches ReplyView::Found(Some(RecordView::User(user)))
                &&& seq![follower] + waiting == user.followers.skip((number - 9) / 2)
                &&& (number - 9) / 2 < user.followers.len()
            },
        },
    decreases number,
{
    let start = PostNewPostView::Insert { post };
    if number > 0 {
        let before = (number - 1) as nat;
        lemma_publication_reached(post, replies, before);
        if let Some(state) = reached::<PostNewPost>(start, replies, before) {
            match state {
                PostNewPostView::EncodeNotification { followers, .. } => {
                    if followers.len() > 0 {
                        assert(seq![followers[0]] + followers.drop_first() =~= followers.skip(0));
                    }
                },
                PostNewPostView::Publish { follower, waiting, .. } => {
                    if let ReplyView::Found(Some(RecordView::User(user))) = replies[1] {
                        let told = (number - 10) / 2;
                        assert((seq![follower] + waiting).drop_first() =~= waiting);
                        assert(user.followers.skip(told).drop_first() =~= user.followers.skip(
                            told + 1,
                        ));
                        assert(waiting == user.followers.skip(told + 1));
                        if waiting.len() > 0 {
                            assert(seq![waiting[0]] + waiting.drop_first() =~= waiting);
                        }
                    }
                },
                _ => {},
            }
        }
    }
}

/// The publication of a post sends nothing but the news of the post, to the
/// followers of its author, one after the other, each just after the queue of
/// the follower has been declared. It caches nothing but the post and the
/// author's record.
pub proof fn post_sends_to_followers_of_author(
    post: PostView,
    replies: Seq<ReplyView>,
    number: nat,
)
    requires
        number < conversation::<PostNewPost>(
            PostNewPostView::Insert { post },
            replies,
        ).asked.len(),
    ensures
        ({
            let asked = conversation::<PostNewPost>(
                PostNewPostView::Insert { post },
                replies,
            ).asked;
            match asked[number as int] {
                CommandView::DeclareQueue { queue } => {
                    &&& number >= 8
                    &&& number % 2 == 0
                    &&& replies[1] matches ReplyView::Found(Some(RecordView::User(author)))
                    &&& (number - 8) / 2 < author.followers.len()
                    &&& queue == author.followers[(number - 8) / 2]
                },
                CommandView::Publish { exchange, routing_key, payload } => {
                    &&& number >= 9
                    &&& number % 2 == 1
                    &&& exchange == ""@
                    &&& asked[number - 1] == CommandView::DeclareQueue { queue: routing_key }
                    &&& replies[1] matches ReplyView::Found(Some(RecordView::User(author)))
                    &&& (number - 9) / 2 < author.followers.len()
                    &&& routing_key == author.followers[(number - 9) / 2]
                    &&& asked[7] == CommandView::EncodeJson {
                        record: RecordView::Notification(NotificationView::NewPost(post)),
                    }
                    &&& replies[7] == ReplyView::Encoded(payload)
                },
                CommandView::CacheSet { key, value } => {
                    ||| {
                        &&& number == 3
                        &&& key == post_key(post.author, post.title)
                        &&& asked[2] == CommandView::EncodeJson { record: RecordView::Post(post) }
                        &&& replies[2] == ReplyView::Encoded(value)
                    }
                    ||| {
                        &&& number == 5
                        &&& replies[1] matches ReplyView::Found(Some(RecordView::User(author)))
                        &&& key == author.username
                        &&& asked[4] == CommandView::EncodeJson {
                            record: RecordView::User(author),
                        }
                        &&& replies[4] == ReplyView::Encoded(value)
                    }
                },
                CommandView::Insert { collection, record } => {
                    &&& number == 0
                    &&& collection == "post"@
                    &&& record == RecordView::Post(post)
                },
                CommandView::FindOneAndUpdate { .. } => number == 1,
                command => only_reads(command),
            }
        }),
{
    let start = PostNewPostView::Insert { post };
    commands_are_pending::<PostNewPost>(start, replies, number);
    lemma_publication_reached(post, replies, number);
    match reached::<PostNewPost>(start, replies, number)->0 {
        PostNewPostView::CachePost { .. } => {
            commands_are_pending::<PostNewPost>(start, replies, 2);
            lemma_publication_reached(post, replies, 2);
        },
        PostNewPostView::CacheUser { .. } => {
            commands_are_pending::<PostNewPost>(start, replies, 4);
            lemma_publication_reached(post, replies, 4);
        },
        PostNewPostView::DeclareQueue { follower, waiting, .. } => {
            assert((seq![follower] + waiting)[0] == follower);
        },
        PostNewPostView::Publish { follower, waiting, .. } => {
            assert((seq![follower] + waiting)[0] == follower);
            let before = (number - 1) as nat;
            commands_are_pending::<PostNewPost>(start, replies, before);
            lemma_publication_reached(post, replies, before);
            commands_are_pending::<PostNewPost>(start, replies, 7);
            lemma_publication_reached(post, replies, 7);
        },
        _ => {},
    }
}

} // verus!
