//! What one request leaves behind for the next: entries of the cache and
//! messages in the queues.
use vstd::prelude::*;

use crate::comment::{
    comments_in_store, CommentView, GetPostComment, GetPostCommentView, PostCommentLike,
    PostCommentLikeView, PostNewComment, PostNewCommentView,
};
use crate::conversation::{conversation, rest_of_conversation};
use crate::dialogue::{
    CacheValueView, CommandView, DeliveryView, FailureView, Kind, RecordView, ReplyView,
};
use crate::follow::{PostUserFollow, PostUserFollowView};
use crate::laws::completion::{
    announcements, comment_like_is_recorded_and_announced, follower_is_added_and_announced,
    new_comment_is_stored_and_announced, new_post_is_announced, notifications_are_withdrawn,
    post_like_is_recorded_and_announced, stored_user_is_served_and_cached, withdrawals,
};
use crate::notification::{
    GetUserNotification, GetUserNotificationView, NotificationView,
};
use crate::post::{
    post_key, PostNewPost, PostNewPostView, PostPostLike, PostPostLikeView, PostView,
};
use crate::user::{GetUser, GetUserView, UserView};
use crate::world::{cached, Cache};

verus! {

/// The cache once these commands have been performed on it.
pub open spec fn cache_after(cache: Cache, asked: Seq<CommandView>) -> Cache
    decreases asked.len(),
{
    if asked.len() == 0 {
        cache
    } else {
        let before = cache_after(cache, asked.drop_last());
        match asked.last() {
            CommandView::CacheSet { key, value } => before.insert(key, value),
            _ => before,
        }
    }
}

/// Commands that write nothing to the cache leave it as it is.
proof fn lemma_cache_unchanged(cache: Cache, asked: Seq<CommandView>)
    requires
        forall|i: int| 0 <= i < asked.len() ==> !(#[trigger] asked[i] is CacheSet),
    ensures
        cache_after(cache, asked) == cache,
    decreases asked.len(),
{
    if asked.len() > 0 {
        lemma_cache_unchanged(cache, asked.drop_last());
    }
}

/// Performing two runs of commands is performing the first and then the
/// second.
proof fn lemma_cache_after_both(cache: Cache, first: Seq<CommandView>, second: Seq<CommandView>)
    ensures
        cache_after(cache, first + second) == cache_after(cache_after(cache, first), second),
    decreases second.len(),
{
    if second.len() == 0 {
        assert(first + second =~= first);
    } else {
        assert((first + second).drop_last() =~= first + second.drop_last());
        assert((first + second).last() == second.last());
        lemma_cache_after_both(cache, first, second.drop_last());
    }
}

/// Once a user has been looked up in the document store, the next lookup is
/// served from the cache, with the same user, and does not ask the document
/// store.
pub proof fn looked_up_user_is_served_next(
    username: Seq<char>,
    user: UserView,
    json: Seq<u8>,
    first: Seq<ReplyView>,
    cache: Cache,
    second: Seq<ReplyView>,
)
    requires
        first.len() >= 4,
        first[0] == ReplyView::Cached(CacheValueView::Nil),
        first[1] == ReplyView::Found(Some(RecordView::User(user))),
        first[2] == ReplyView::Encoded(json),
        first[3] == ReplyView::Done,
        second.len() >= 2,
        second[0] == ReplyView::Cached(
            cached(
                cache_after(
                    cache,
                    conversation::<GetUser>(GetUserView::CacheGet { username }, first).asked,
                ),
                username,
            ),
        ),
        second[1] == ReplyView::Decoded(RecordView::User(user)),
    ensures
        ({
            let talk = conversation::<GetUser>(GetUserView::CacheGet { username }, second);
            &&& talk.asked == seq![
                CommandView::CacheGet { key: username },
                CommandView::DecodeJson { kind: Kind::User, bytes: json },
            ]
            &&& talk.outcome == Some(Ok::<UserView, FailureView>(user))
        }),
{
    stored_user_is_served_and_cached(username, user, json, first);
    reveal_with_fuel(cache_after, 2);
    reveal_with_fuel(rest_of_conversation, 3);
}

/// Once a user has been followed, the next lookup is served from the cache,
/// with the record that has the follower.
pub proof fn followed_user_is_served_next(
    username: Seq<char>,
    follower: Seq<char>,
    user: UserView,
    payload: Seq<u8>,
    user_json: Seq<u8>,
    first: Seq<ReplyView>,
    cache: Cache,
    second: Seq<ReplyView>,
)
    requires
        first.len() >= 6,
        first[0] == ReplyView::Found(Some(RecordView::User(user))),
        first[1] == ReplyView::Encoded(payload),
        first[2] == ReplyView::Done,
        first[3] == ReplyView::Done,
        first[4] == ReplyView::Encoded(user_json),
        first[5] == ReplyView::Done,
        second.len() >= 2,
        second[0] == ReplyView::Cached(
            cached(
                cache_after(
                    cache,
                    conversation::<PostUserFollow>(
                        PostUserFollowView::UpdateUser { username, follower },
                        first,
                    ).asked,
                ),
                username,
            ),
        ),
        second[1] == ReplyView::Decoded(RecordView::User(user)),
    ensures
        ({
            let talk = conversation::<GetUser>(GetUserView::CacheGet { username }, second);
            &&& talk.asked == seq![
                CommandView::CacheGet { key: username },
                CommandView::DecodeJson { kind: Kind::User, bytes: user_json },
            ]
            &&& talk.outcome == Some(Ok::<UserView, FailureView>(user))
        }),
{
    follower_is_added_and_announced(username, follower, user, payload, user_json, first);
    reveal_with_fuel(cache_after, 2);
    reveal_with_fuel(rest_of_conversation, 3);
}

/// Once a post has been commented on, the next request for its comments finds
/// the updated post in the cache, and does not ask the document store for it.
pub proof fn commented_post_is_known_next(
    comment: CommentView,
    post: PostView,
    payload: Seq<u8>,
    post_json: Seq<u8>,
    first: Seq<ReplyView>,
    cache: Cache,
    second: Seq<ReplyView>,
)
    requires
        first.len() >= 7,
        first[0] == ReplyView::Found(Some(RecordView::Post(post))),
        first[1] == ReplyView::Done,
        first[2] == ReplyView::Done,
        first[3] == ReplyView::Encoded(payload),
        first[4] == ReplyView::Done,
        first[5] == ReplyView::Encoded(post_json),
        first[6] == ReplyView::Done,
        second.len() >= 2,
        second[0] == ReplyView::Cached(
            cached(
                cache_after(
                    cache,
                    conversation::<PostNewComment>(
                        PostNewCommentView::UpdatePost { comment },
                        first,
                    ).asked,
                ),
                post_key(comment.post_author, comment.post_title),
            ),
        ),
        second[1] == ReplyView::Decoded(RecordView::Post(post)),
    ensures
        ({
            let talk = conversation::<GetPostComment>(
                GetPostCommentView::CacheGet {
                    username: comment.post_author,
                    post_title: comment.post_title,
                },
                second,
            );
            &&& talk.asked.len() > 2
            &&& talk.asked[0] == CommandView::CacheGet {
                key: post_key(comment.post_author, comment.post_title),
            }
            &&& talk.asked[1] == CommandView::DecodeJson { kind: Kind::Post, bytes: post_json }
            &&& talk.asked[2] == comments_in_store(comment.post_author, comment.post_title)
        }),
{
    new_comment_is_stored_and_announced(comment, post, payload, post_json, first);
    reveal_with_fuel(cache_after, 2);
    reveal_with_fuel(rest_of_conversation, 4);
}

/// The announcements of a post write nothing to the cache.
proof fn lemma_announcements_cache_nothing(followers: Seq<Seq<char>>, payload: Seq<u8>)
    ensures
        forall|i: int|
            0 <= i < announcements(followers, payload).len() ==> !(#[trigger] announcements(
                followers,
                payload,
            )[i] is CacheSet),
    decreases followers.len(),
{
    if followers.len() > 0 {
        let later = announcements(followers.drop_first(), payload);
        lemma_announcements_cache_nothing(followers.drop_first(), payload);
        assert forall|i: int| 0 <= i < announcements(followers, payload).len() implies !(
        #[trigger] announcements(followers, payload)[i] is CacheSet) by {
            if i >= 2 {
                assert(announcements(followers, payload)[i] == later[i - 2]);
            }
        }
    }
}

/// What the cache holds once a post has been published: the post under its
/// key, the author's record under the author's name, and otherwise what it
/// held before.
pub proof fn published_post_is_cached(
    post: PostView,
    author: UserView,
    post_json: Seq<u8>,
    author_json: Seq<u8>,
    payload: Seq<u8>,
    replies: Seq<ReplyView>,
    cache: Cache,
)
    requires
        replies.len() >= 8 + 2 * author.followers.len(),
        replies[0] == ReplyView::Done,
        replies[1] == ReplyView::Found(Some(RecordView::User(author))),
        replies[2] == ReplyView::Encoded(post_json),
        replies[3] == ReplyView::Done,
        replies[4] == ReplyView::Encoded(author_json),
        replies[5] == ReplyView::Done,
        replies[6] == ReplyView::Done,
        replies[7] == ReplyView::Encoded(payload),
        forall|i: int|
            8 <= i < 8 + 2 * author.followers.len() ==> #[trigger] replies[i] == ReplyView::Done,
    ensures
        cache_after(
            cache,
            conversation::<PostNewPost>(PostNewPostView::Insert { post }, replies).asked,
        ) == cache.insert(post_key(post.author, post.title), post_json).insert(
            author.username,
            author_json,
        ),
{
    new_post_is_announced(post, author, post_json, author_json, payload, replies);
    let asked = conversation::<PostNewPost>(PostNewPostView::Insert { post }, replies).asked;
    let told = announcements(author.followers, payload);
    let head = asked.take(8);
    assert(asked =~= head + told);
    lemma_cache_after_both(cache, head, told);
    lemma_announcements_cache_nothing(author.followers, payload);
    lemma_cache_unchanged(cache_after(cache, head), told);
    assert(head.drop_last().drop_last() =~= asked.take(6));
    reveal_with_fuel(cache_after, 9);
    assert(asked.take(6).drop_last().drop_last() =~= asked.take(4));
    assert(asked.take(4).drop_last() =~= asked.take(3));
    lemma_cache_unchanged(cache, asked.take(3));
}

/// Once a post has been published, the next request for its comments finds it
/// in the cache, and does not ask the document store for it.
pub proof fn published_post_is_known_next(
    post: PostView,
    author: UserView,
    post_json: Seq<u8>,
    author_json: Seq<u8>,
    payload: Seq<u8>,
    first: Seq<ReplyView>,
    cache: Cache,
    second: Seq<ReplyView>,
)
    requires
        author.username == post.author,
        first.len() >= 8 + 2 * author.followers.len(),
        first[0] == ReplyView::Done,
        first[1] == ReplyView::Found(Some(RecordView::User(author))),
        first[2] == ReplyView::Encoded(post_json),
        first[3] == ReplyView::Done,
        first[4] == ReplyView::Encoded(author_json),
        first[5] == ReplyView::Done,
        first[6] == ReplyView::Done,
        first[7] == ReplyView::Encoded(payload),
        forall|i: int|
            8 <= i < 8 + 2 * author.followers.len() ==> #[trigger] first[i] == ReplyView::Done,
        second.len() >= 2,
        second[0] == ReplyView::Cached(
            cached(
                cache_after(
                    cache,
                    conversation::<PostNewPost>(PostNewPostView::Insert { post }, first).asked,
                ),
                post_key(post.author, post.title),
            ),
        ),
        second[1] == ReplyView::Decoded(RecordView::Post(post)),
    ensures
        ({
            let talk = conversation::<GetPostComment>(
                GetPostCommentView::CacheGet { username: post.author, post_title: post.title },
                second,
            );
            &&& talk.asked.len() > 2
            &&& talk.asked[0] == CommandView::CacheGet { key: post_key(post.author, post.title) }
            &&& talk.asked[1] == CommandView::DecodeJson { kind: Kind::Post, bytes: post_json }
            &&& talk.asked[2] == comments_in_store(post.author, post.title)
        }),
{
    published_post_is_cached(post, author, post_json, author_json, payload, first, cache);
    reveal_strlit("/");
    assert(post_key(post.author, post.title).len() > post.author.len());
    reveal_with_fuel(rest_of_conversation, 4);
}

/// Once a user has published a post, the next lookup of the user is served
/// from the cache, with the record that has the post.
pub proof fn publishing_user_is_served_next(
    post: PostView,
    author: UserView,
    post_json: Seq<u8>,
    author_json: Seq<u8>,
    payload: Seq<u8>,
    first: Seq<ReplyView>,
    cache: Cache,
    second: Seq<ReplyView>,
)
    requires
        first.len() >= 8 + 2 * author.followers.len(),
        first[0] == ReplyView::Done,
        first[1] == ReplyView::Found(Some(RecordView::User(author))),
        first[2] == ReplyView::Encoded(post_json),
        first[3] == ReplyView::Done,
        first[4] == ReplyView::Encoded(author_json),
        first[5] == ReplyView::Done,
        first[6] == ReplyView::Done,
        first[7] == ReplyView::Encoded(payload),
        forall|i: int|
            8 <= i < 8 + 2 * author.followers.len() ==> #[trigger] first[i] == ReplyView::Done,
        second.len() >= 2,
        second[0] == ReplyView::Cached(
            cached(
                cache_after(
                    cache,
                    conversation::<PostNewPost>(PostNewPostView::Insert { post }, first).asked,
                ),
                author.username,
            ),
        ),
        second[1] == ReplyView::Decoded(RecordView::User(author)),
    ensures
        ({
            let talk = conversation::<GetUser>(
                GetUserView::CacheGet { username: author.username },
                second,
            );
            &&& talk.asked == seq![
                CommandView::CacheGet { key: author.username },
                CommandView::DecodeJson { kind: Kind::User, bytes: author_json },
            ]
            &&& talk.outcome == Some(Ok::<UserView, FailureView>(author))
        }),
{
    published_post_is_cached(post, author, post_json, author_json, payload, first, cache);
    reveal_with_fuel(rest_of_conversation, 3);
}

/// The messages that these commands put into a queue, in order. The default
/// exchange, which has no name, delivers a message to the queue that is named
/// by the routing key.
pub open spec fn messages_for(queue: Seq<char>, asked: Seq<CommandView>) -> Seq<Seq<u8>>
    decreases asked.len(),
{
    if asked.len() == 0 {
        Seq::empty()
    } else {
        let later = messages_for(queue, asked.drop_first());
        match asked[0] {
            CommandView::Publish { exchange, routing_key, payload } => if exchange == ""@
                && routing_key == queue {
                seq![payload] + later
            } else {
                later
            },
            _ => later,
        }
    }
}

/// What two runs of commands put into a queue.
proof fn lemma_messages_of_both(
    queue: Seq<char>,
    first: Seq<CommandView>,
    second: Seq<CommandView>,
)
    ensures
        messages_for(queue, first + second) == messages_for(queue, first) + messages_for(
            queue,
            second,
        ),
    decreases first.len(),
{
    if first.len() == 0 {
        assert(first + second =~= second);
        assert(messages_for(queue, first) + messages_for(queue, second) =~= messages_for(
            queue,
            second,
        ));
    } else {
        assert((first + second).drop_first() =~= first.drop_first() + second);
        lemma_messages_of_both(queue, first.drop_first(), second);
        assert(messages_for(queue, first + second) =~= messages_for(queue, first)
            + messages_for(queue, second));
    }
}

/// Commands that send nothing put nothing into a queue.
proof fn lemma_no_messages(queue: Seq<char>, asked: Seq<CommandView>)
    requires
        forall|i: int| 0 <= i < asked.len() ==> !(#[trigger] asked[i] is Publish),
    ensures
        messages_for(queue, asked) == Seq::<Seq<u8>>::empty(),
    decreases asked.len(),
{
    if asked.len() > 0 {
        lemma_no_messages(queue, asked.drop_first());
    }
}

/// Commands of which one sends a message.
proof fn lemma_one_message(queue: Seq<char>, asked: Seq<CommandView>, at: int)
    requires
        0 <= at < asked.len(),
        asked[at] matches CommandView::Publish { exchange, .. } && exchange == ""@,
        forall|i: int| 0 <= i < asked.len() && i != at ==> !(#[trigger] asked[i] is Publish),
    ensures
        asked[at] matches CommandView::Publish { routing_key, payload, .. } && messages_for(
            queue,
            asked,
        ) == if routing_key == queue {
            seq![payload]
        } else {
            Seq::empty()
        },
{
    let before = asked.take(at);
    let rest = asked.skip(at);
    assert(asked =~= before + rest);
    lemma_messages_of_both(queue, before, rest);
    lemma_no_messages(queue, before);
    lemma_no_messages(queue, rest.drop_first());
    assert(rest[0] == asked[at]);
    assert(messages_for(queue, asked) =~= messages_for(queue, rest));
}

/// A follow puts one message into the queue of the user who is followed, and
/// none into any other.
pub proof fn follow_tells_followed_user(
    username: Seq<char>,
    follower: Seq<char>,
    user: UserView,
    payload: Seq<u8>,
    user_json: Seq<u8>,
    replies: Seq<ReplyView>,
    queue: Seq<char>,
)
    requires
        replies.len() >= 6,
        replies[0] == ReplyView::Found(Some(RecordView::User(user))),
        replies[1] == ReplyView::Encoded(payload),
        replies[2] == ReplyView::Done,
        replies[3] == ReplyView::Done,
        replies[4] == ReplyView::Encoded(user_json),
        replies[5] == ReplyView::Done,
    ensures
        messages_for(
            queue,
            conversation::<PostUserFollow>(
                PostUserFollowView::UpdateUser { username, follower },
                replies,
            ).asked,
        ) == if queue == user.username {
            seq![payload]
        } else {
            Seq::empty()
        },
{
    follower_is_added_and_announced(username, follower, user, payload, user_json, replies);
    let asked = conversation::<PostUserFollow>(
        PostUserFollowView::UpdateUser { username, follower },
        replies,
    ).asked;
    lemma_one_message(queue, asked, 3);
}

/// A like of a post puts one message into the queue of the user whose post it
/// is, and none into any other.
pub proof fn post_like_tells_post_owner(
    username: Seq<char>,
    title: Seq<char>,
    liker: Seq<char>,
    user: UserView,
    counted: Option<PostView>,
    payload: Seq<u8>,
    replies: Seq<ReplyView>,
    queue: Seq<char>,
)
    requires
        replies.len() >= 5,
        replies[0] == ReplyView::Found(Some(RecordView::User(user))),
        replies[1] == ReplyView::Found(
            match counted {
                Some(post) => Some(RecordView::Post(post)),
                None => None,
            },
        ),
        replies[2] == ReplyView::Encoded(payload),
        replies[3] == ReplyView::Done,
        replies[4] == ReplyView::Done,
    ensures
        messages_for(
            queue,
            conversation::<PostPostLike>(
                PostPostLikeView::UpdateUser { username, title, liker },
                replies,
            ).asked,
        ) == if queue == username {
            seq![payload]
        } else {
            Seq::empty()
        },
{
    post_like_is_recorded_and_announced(
        username,
        title,
        liker,
        user,
        counted,
        payload,
        replies,
    );
    let asked = conversation::<PostPostLike>(
        PostPostLikeView::UpdateUser { username, title, liker },
        replies,
    ).asked;
    lemma_one_message(queue, asked, 4);
}

/// A comment puts one message into the queue of the author of the post, and
/// none into any other.
pub proof fn comment_tells_post_author(
    comment: CommentView,
    post: PostView,
    payload: Seq<u8>,
    post_json: Seq<u8>,
    replies: Seq<ReplyView>,
    queue: Seq<char>,
)
    requires
        replies.len() >= 7,
        replies[0] == ReplyView::Found(Some(RecordView::Post(post))),
        replies[1] == ReplyView::Done,
        replies[2] == ReplyView::Done,
        replies[3] == ReplyView::Encoded(payload),
        replies[4] == ReplyView::Done,
        replies[5] == ReplyView::Encoded(post_json),
        replies[6] == ReplyView::Done,
    ensures
        messages_for(
            queue,
            conversation::<PostNewComment>(
                PostNewCommentView::UpdatePost { comment },
                replies,
            ).asked,
        ) == if queue == comment.post_author {
            seq![payload]
        } else {
            Seq::empty()
        },
{
    new_comment_is_stored_and_announced(comment, post, payload, post_json, replies);
    let asked = conversation::<PostNewComment>(
        PostNewCommentView::UpdatePost { comment },
        replies,
    ).asked;
    lemma_one_message(queue, asked, 4);
}

/// A like of a comment puts one message into the queue of the author of the
/// comment, and none into any other.
pub proof fn comment_like_tells_comment_author(
    user_id: Seq<char>,
    post_title: Seq<char>,
    comment_title: Seq<char>,
    liker: Seq<char>,
    comment: CommentView,
    payload: Seq<u8>,
    json: Seq<u8>,
    replies: Seq<ReplyView>,
    queue: Seq<char>,
)
    requires
        replies.len() >= 5,
        replies[0] == ReplyView::Found(Some(RecordView::Comment(comment))),
        replies[1] == ReplyView::Done,
        replies[2] == ReplyView::Encoded(payload),
        replies[3] == ReplyView::Done,
        replies[4] == ReplyView::Encoded(json),
    ensures
        messages_for(
            queue,
            conversation::<PostCommentLike>(
                PostCommentLikeView::UpdateComment { user_id, post_title, comment_title, liker },
                replies,
            ).asked,
        ) == if queue == comment.author {
            seq![payload]
        } else {
            Seq::empty()
        },
{
    comment_like_is_recorded_and_announced(
        user_id,
        post_title,
        comment_title,
        liker,
        comment,
        payload,
        json,
        replies,
    );
    let asked = conversation::<PostCommentLike>(
        PostCommentLikeView::UpdateComment { user_id, post_title, comment_title, liker },
        replies,
    ).asked;
    lemma_one_message(queue, asked, 3);
}

/// How often a name is on a list.
pub open spec fn occurrences(name: Seq<char>, names: Seq<Seq<char>>) -> nat
    decreases names.len(),
{
    if names.len() == 0 {
        0
    } else {
        occurrences(name, names.drop_first()) + if names[0] == name {
            1nat
        } else {
            0nat
        }
    }
}

/// Announcements put the message into a queue as often as its name is on the
/// list of followers.
proof fn lemma_messages_of_announcements(
    queue: Seq<char>,
    followers: Seq<Seq<char>>,
    payload: Seq<u8>,
)
    ensures
        messages_for(queue, announcements(followers, payload)) == Seq::new(
            occurrences(queue, followers),
            |i: int| payload,
        ),
    decreases followers.len(),
{
    let all = announcements(followers, payload);
    if followers.len() == 0 {
        assert(messages_for(queue, all) =~= Seq::new(0, |i: int| payload));
    } else {
        let later = announcements(followers.drop_first(), payload);
        let head = seq![
            CommandView::DeclareQueue { queue: followers[0] },
            CommandView::Publish { exchange: ""@, routing_key: followers[0], payload },
        ];
        lemma_messages_of_announcements(queue, followers.drop_first(), payload);
        lemma_messages_of_both(queue, head, later);
        lemma_one_message(queue, head, 1);
        assert(messages_for(queue, all) =~= Seq::new(
            occurrences(queue, followers),
            |i: int| payload,
        ));
    }
}

/// The publication of a post puts the news into the queue of each follower of
/// the author, as often as the follower is on the author's list, and into no
/// other queue.
pub proof fn post_tells_each_follower(
    post: PostView,
    author: UserView,
    post_json: Seq<u8>,
    author_json: Seq<u8>,
    payload: Seq<u8>,
    replies: Seq<ReplyView>,
    queue: Seq<char>,
)
    requires
        replies.len() >= 8 + 2 * author.followers.len(),
        replies[0] == ReplyView::Done,
        replies[1] == ReplyView::Found(Some(RecordView::User(author))),
        replies[2] == ReplyView::Encoded(post_json),
        replies[3] == ReplyView::Done,
        replies[4] == ReplyView::Encoded(author_json),
        replies[5] == ReplyView::Done,
        replies[6] == ReplyView::Done,
        replies[7] == ReplyView::Encoded(payload),
        forall|i: int|
            8 <= i < 8 + 2 * author.followers.len() ==> #[trigger] replies[i] == ReplyView::Done,
    ensures
        messages_for(
            queue,
            conversation::<PostNewPost>(PostNewPostView::Insert { post }, replies).asked,
        ) == Seq::new(occurrences(queue, author.followers), |i: int| payload),
{
    new_post_is_announced(post, author, post_json, author_json, payload, replies);
    let asked = conversation::<PostNewPost>(PostNewPostView::Insert { post }, replies).asked;
    let told = announcements(author.followers, payload);
    let head = asked.take(8);
    assert(asked =~= head + told);
    lemma_messages_of_both(queue, head, told);
    lemma_no_messages(queue, head);
    lemma_messages_of_announcements(queue, author.followers, payload);
    assert(messages_for(queue, asked) =~= messages_for(queue, told));
}

/// The command that decodes the message at a place of the queue.
proof fn lemma_withdrawals_decode(
    username: Seq<char>,
    deliveries: Seq<DeliveryView>,
    place: nat,
)
    requires
        place < deliveries.len(),
    ensures
        3 * place + 2 < withdrawals(username, deliveries).len(),
        withdrawals(username, deliveries)[(3 * place + 2) as int] == (CommandView::DecodeJson {
            kind: Kind::Notification,
            bytes: deliveries[place as int].data,
        }),
    decreases place,
{
    let all = withdrawals(username, deliveries);
    let later = withdrawals(username, deliveries.drop_first());
    if place > 0 {
        lemma_withdrawals_decode(username, deliveries.drop_first(), (place - 1) as nat);
        assert(all[(3 * place + 2) as int] == later[3 * (place - 1) + 2]);
    }
}

/// A user who asks for notifications gets what the messages in the queue of
/// that name stand for: each of them is decoded, in order.
pub proof fn queued_messages_are_received(
    username: Seq<char>,
    queue: Seq<Seq<u8>>,
    deliveries: Seq<DeliveryView>,
    notifications: Seq<NotificationView>,
    replies: Seq<ReplyView>,
)
    requires
        deliveries.len() == queue.len(),
        forall|i: int| 0 <= i < queue.len() ==> (#[trigger] deliveries[i]).data == queue[i],
        notifications.len() == queue.len(),
        1 + 3 * deliveries.len() < replies.len(),
        replies[0] == ReplyView::Done,
        forall|i: int|
            0 <= i < deliveries.len() ==> {
                &&& replies[1 + 3 * i] == ReplyView::Fetched(Some(#[trigger] deliveries[i]))
                &&& replies[1 + 3 * i + 1] == ReplyView::Done
                &&& replies[1 + 3 * i + 2] == ReplyView::Decoded(
                    RecordView::Notification(notifications[i]),
                )
            },
        replies[(1 + 3 * deliveries.len()) as int] == ReplyView::Fetched(None),
    ensures
        ({
            let talk = conversation::<GetUserNotification>(
                GetUserNotificationView::OpenChannel { username },
                replies,
            );
            &&& talk.outcome == Some(Ok::<Seq<NotificationView>, FailureView>(notifications))
            &&& forall|place: nat|
                place < queue.len() ==> talk.asked[(3 * place + 3) as int]
                    == (CommandView::DecodeJson {
                    kind: Kind::Notification,
                    bytes: #[trigger] queue[place as int],
                })
        }),
{
    notifications_are_withdrawn(username, deliveries, notifications, replies);
    let talk = conversation::<GetUserNotification>(
        GetUserNotificationView::OpenChannel { username },
        replies,
    );
    assert forall|place: nat| place < queue.len() implies talk.asked[(3 * place + 3) as int]
        == (CommandView::DecodeJson {
        kind: Kind::Notification,
        bytes: #[trigger] queue[place as int],
    }) by {
        lemma_withdrawals_decode(username, deliveries, place);
        assert(deliveries[place as int].data == queue[place as int]);
    }
}

/// Two posts have the same key in the cache exactly if they are the same, or
/// the author of the one is the author of the other, a slash and the
/// beginning of the other's title.
pub proof fn posts_share_key_iff(
    author: Seq<char>,
    title: Seq<char>,
    other_author: Seq<char>,
    other_title: Seq<char>,
)
    ensures
        post_key(author, title) == post_key(other_author, other_title) <==> {
            ||| author == other_author && title == other_title
            ||| exists|middle: Seq<char>|
                other_author == #[trigger] post_key(author, middle) && title == post_key(
                    middle,
                    other_title,
                )
            ||| exists|middle: Seq<char>|
                author == #[trigger] post_key(other_author, middle) && other_title == post_key(
                    middle,
                    title,
                )
        },
{
    if author.len() <= other_author.len() {
        lemma_shorter_author(author, title, other_author, other_title);
    } else {
        lemma_shorter_author(other_author, other_title, author, title);
    }
    assert forall|middle: Seq<char>|
        other_author == #[trigger] post_key(author, middle) && title == post_key(
            middle,
            other_title,
        ) implies post_key(author, title) == post_key(other_author, other_title) by {
        assert(post_key(author, title) =~= post_key(other_author, other_title));
    }
    assert forall|middle: Seq<char>|
        author == #[trigger] post_key(other_author, middle) && other_title == post_key(
            middle,
            title,
        ) implies post_key(author, title) == post_key(other_author, other_title) by {
        assert(post_key(author, title) =~= post_key(other_author, other_title));
    }
}

/// Where two posts have the same key, the longer name of an author goes on
/// with a slash and the beginning of the other's title.
proof fn lemma_shorter_author(
    author: Seq<char>,
    title: Seq<char>,
    other_author: Seq<char>,
    other_title: Seq<char>,
)
    requires
        author.len() <= other_author.len(),
    ensures
        post_key(author, title) == post_key(other_author, other_title) ==> {
            ||| author == other_author && title == other_title
            ||| exists|middle: Seq<char>|
                other_author == #[trigger] post_key(author, middle) && title == post_key(
                    middle,
                    other_title,
                )
        },
{
    reveal_strlit("/");
    let key = post_key(author, title);
    let other = post_key(other_author, other_title);
    if key == other {
        assert(author =~= key.take(author.len() as int));
        assert(title =~= key.skip((author.len() + 1) as int));
        assert(other_author =~= other.take(other_author.len() as int));
        assert(other_title =~= other.skip((other_author.len() + 1) as int));
        if author.len() < other_author.len() {
            let middle = other_author.skip((author.len() + 1) as int);
            assert(key[author.len() as int] == '/');
            assert(other_author[author.len() as int] == '/');
            assert(other_author =~= post_key(author, middle));
            assert(other[other_author.len() as int] == '/');
            assert(title =~= post_key(middle, other_title));
        }
    }
}

/// A name without a slash is not the key of a post, so the record of a user
/// with such a name and a post never take each other's place in the cache.
pub proof fn plain_name_is_no_post_key(
    username: Seq<char>,
    author: Seq<char>,
    title: Seq<char>,
)
    requires
        !username.contains('/'),
    ensures
        username != post_key(author, title),
{
    reveal_strlit("/");
    assert(post_key(author, title)[author.len() as int] == '/');
}

} // verus!
