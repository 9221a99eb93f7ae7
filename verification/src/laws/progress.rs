//! Every request is answered: after a bounded number of commands, or once
//! what it reads has come to its end.
use vstd::prelude::*;

use crate::comment::{
    CommentView, GetPostComment, GetPostCommentView, PostCommentLike, PostCommentLikeView,
    PostNewComment, PostNewCommentView,
};
use crate::conversation::{
    after, answer_ends_conversation, commands_are_pending, conversation, reached,
    reached_states_ask,
};
use crate::dialogue::{fits, CommandView, Handler, RecordView, ReplyView};
use crate::follow::{PostUserFollow, PostUserFollowView};
use crate::laws::restraint::lemma_publication_reached;
use crate::notification::{GetUserNotification, GetUserNotificationView};
use crate::post::{PostNewPost, PostNewPostView, PostPostLike, PostPostLikeView, PostView};
use crate::user::{GetUser, GetUserView, PostNewUser, PostNewUserView, UserView};

verus! {

/// Whether every reply can be what came of the command that it answers.
pub open spec fn in_turn(asked: Seq<CommandView>, replies: Seq<ReplyView>) -> bool {
    forall|i: int|
        0 <= i < asked.len() && i < replies.len() ==> fits(#[trigger] asked[i], replies[i])
}

/// Whether a handler refuses nothing that can be what came of its command.
pub open spec fn accepts_what_fits<H: Handler>() -> bool {
    forall|state: H::V, reply: ReplyView|
        fits(H::pending(state), reply) ==> !(#[trigger] after::<H>(state, reply) is OutOfTurn)
}

/// No handler refuses what can be what came of its command.
pub proof fn all_handlers_accept_what_fits()
    ensures
        accepts_what_fits::<PostNewUser>(),
        accepts_what_fits::<GetUser>(),
        accepts_what_fits::<PostUserFollow>(),
        accepts_what_fits::<PostNewPost>(),
        accepts_what_fits::<PostPostLike>(),
        accepts_what_fits::<GetPostComment>(),
        accepts_what_fits::<PostNewComment>(),
        accepts_what_fits::<PostCommentLike>(),
        accepts_what_fits::<GetUserNotification>(),
{
}

/// Where every reply is in turn, a request that has not been answered waits
/// for the next reply.
pub proof fn unanswered_request_waits<H: Handler>(start: H::V, replies: Seq<ReplyView>)
    requires
        accepts_what_fits::<H>(),
        in_turn(conversation::<H>(start, replies).asked, replies),
        conversation::<H>(start, replies).outcome is None,
    ensures
        conversation::<H>(start, replies).asked.len() == replies.len() + 1,
{
    lemma_unanswered_is_reached::<H>(start, replies, replies.len());
    let asked = conversation::<H>(start, replies).asked;
    reached_states_ask::<H>(start, replies, replies.len());
    if asked.len() > replies.len() + 1 {
        commands_are_pending::<H>(start, replies, replies.len() + 1);
    }
}

/// Where every reply is in turn, a request that is not answered by the
/// replies is in a state after each of them.
proof fn lemma_unanswered_is_reached<H: Handler>(
    start: H::V,
    replies: Seq<ReplyView>,
    number: nat,
)
    requires
        accepts_what_fits::<H>(),
        in_turn(conversation::<H>(start, replies).asked, replies),
        conversation::<H>(start, replies).outcome is None,
        number <= replies.len(),
    ensures
        reached::<H>(start, replies, number) is Some,
    decreases number,
{
    if number > 0 {
        let before = (number - 1) as nat;
        lemma_unanswered_is_reached::<H>(start, replies, before);
        reached_states_ask::<H>(start, replies, before);
        commands_are_pending::<H>(start, replies, before);
        let asked = conversation::<H>(start, replies).asked;
        let state = reached::<H>(start, replies, before)->0;
        assert(fits(asked[before as int], replies[before as int]));
        assert(!(after::<H>(state, replies[before as int]) is OutOfTurn));
        answer_ends_conversation::<H>(start, replies, before);
    }
}

/// Registration is answered after one command.
pub proof fn registration_is_answered(
    user: UserView,
    replies: Seq<ReplyView>,
)
    ensures
        ({
            let start = PostNewUserView::Insert { user };
            let talk = conversation::<PostNewUser>(start, replies);
            &&& talk.asked.len() <= 1
            &&& in_turn(talk.asked, replies) && replies.len() >= 1 ==> talk.outcome is Some
        }),
{
    let start = PostNewUserView::Insert { user };
    let talk = conversation::<PostNewUser>(start, replies);
    if talk.asked.len() > 1 {
        commands_are_pending::<PostNewUser>(start, replies, 1);
        reveal_with_fuel(reached, 2);
    }
    if in_turn(talk.asked, replies) && talk.outcome is None {
        all_handlers_accept_what_fits();
        unanswered_request_waits::<PostNewUser>(start, replies);
    }
}

/// Looking up a user is answered after four commands at most.
pub proof fn lookup_is_answered(
    username: Seq<char>,
    replies: Seq<ReplyView>,
)
    ensures
        ({
            let start = GetUserView::CacheGet { username };
            let talk = conversation::<GetUser>(start, replies);
            &&& talk.asked.len() <= 4
            &&& in_turn(talk.asked, replies) && replies.len() >= 4 ==> talk.outcome is Some
        }),
{
    let start = GetUserView::CacheGet { username };
    let talk = conversation::<GetUser>(start, replies);
    if talk.asked.len() > 4 {
        commands_are_pending::<GetUser>(start, replies, 4);
        reveal_with_fuel(reached, 5);
    }
    if in_turn(talk.asked, replies) && talk.outcome is None {
        all_handlers_accept_what_fits();
        unanswered_request_waits::<GetUser>(start, replies);
    }
}

/// Following is answered after six commands at most.
pub proof fn follow_is_answered(
    username: Seq<char>,
    follower: Seq<char>,
    replies: Seq<ReplyView>,
)
    ensures
        ({
            let start = PostUserFollowView::UpdateUser { username, follower };
            let talk = conversation::<PostUserFollow>(start, replies);
            &&& talk.asked.len() <= 6
            &&& in_turn(talk.asked, replies) && replies.len() >= 6 ==> talk.outcome is Some
        }),
{
    let start = PostUserFollowView::UpdateUser { username, follower };
    let talk = conversation::<PostUserFollow>(start, replies);
    if talk.asked.len() > 6 {
        commands_are_pending::<PostUserFollow>(start, replies, 6);
        reveal_with_fuel(reached, 7);
    }
    if in_turn(talk.asked, replies) && talk.outcome is None {
        all_handlers_accept_what_fits();
        unanswered_request_waits::<PostUserFollow>(start, replies);
    }
}

/// Liking a post is answered after five commands at most.
pub proof fn post_like_is_answered(
    username: Seq<char>,
    title: Seq<char>,
    liker: Seq<char>,
    replies: Seq<ReplyView>,
)
    ensures
        ({
            let start = PostPostLikeView::UpdateUser { username, title, liker };
            let talk = conversation::<PostPostLike>(start, replies);
            &&& talk.asked.len() <= 5
            &&& in_turn(talk.asked, replies) && replies.len() >= 5 ==> talk.outcome is Some
        }),
{
    let start = PostPostLikeView::UpdateUser { username, title, liker };
    let talk = conversation::<PostPostLike>(start, replies);
    if talk.asked.len() > 5 {
        commands_are_pending::<PostPostLike>(start, replies, 5);
        reveal_with_fuel(reached, 6);
    }
    if in_turn(talk.asked, replies) && talk.outcome is None {
        all_handlers_accept_what_fits();
        unanswered_request_waits::<PostPostLike>(start, replies);
    }
}

/// Commenting is answered after seven commands at most.
pub proof fn comment_is_answered(
    comment: CommentView,
    replies: Seq<ReplyView>,
)
    ensures
        ({
            let start = PostNewCommentView::UpdatePost { comment };
            let talk = conversation::<PostNewComment>(start, replies);
            &&& talk.asked.len() <= 7
            &&& in_turn(talk.asked, replies) && replies.len() >= 7 ==> talk.outcome is Some
        }),
{
    let start = PostNewCommentView::UpdatePost { comment };
    let talk = conversation::<PostNewComment>(start, replies);
    if talk.asked.len() > 7 {
        commands_are_pending::<PostNewComment>(start, replies, 7);
        reveal_with_fuel(reached, 8);
    }
    if in_turn(talk.asked, replies) && talk.outcome is None {
        all_handlers_accept_what_fits();
        unanswered_request_waits::<PostNewComment>(start, replies);
    }
}

/// Liking a comment is answered after five commands at most.
pub proof fn comment_like_is_answered(
    user_id: Seq<char>,
    post_title: Seq<char>,
    comment_title: Seq<char>,
    liker: Seq<char>,
    replies: Seq<ReplyView>,
)
    ensures
        ({
            let start = PostCommentLikeView::UpdateComment {
                user_id,
                post_title,
                comment_title,
                liker,
            };
            let talk = conversation::<PostCommentLike>(start, replies);
            &&& talk.asked.len() <= 5
            &&& in_turn(talk.asked, replies) && replies.len() >= 5 ==> talk.outcome is Some
        }),
{
    let start = PostCommentLikeView::UpdateComment { user_id, post_title, comment_title, liker };
    let talk = conversation::<PostCommentLike>(start, replies);
    if talk.asked.len() > 5 {
        commands_are_pending::<PostCommentLike>(start, replies, 5);
        reveal_with_fuel(reached, 6);
    }
    if in_turn(talk.asked, replies) && talk.outcome is None {
        all_handlers_accept_what_fits();
        unanswered_request_waits::<PostCommentLike>(start, replies);
    }
}

/// How many commands the publication of a post takes at most, where `found`
/// came of the update of the author's record.
pub open spec fn publication_bound(found: ReplyView) -> nat {
    match found {
        ReplyView::Found(Some(RecordView::User(author))) => 8 + 2 * author.followers.len(),
        _ => 2,
    }
}

/// Publishing is answered after eight commands, and two more for each follower
/// of the author, at most.
pub proof fn post_is_answered(post: PostView, replies: Seq<ReplyView>)
    requires
        replies.len() >= 2,
    ensures
        ({
            let talk = conversation::<PostNewPost>(PostNewPostView::Insert { post }, replies);
            let bound = publication_bound(replies[1]);
            &&& talk.asked.len() <= bound
            &&& in_turn(talk.asked, replies) && replies.len() >= bound ==> talk.outcome is Some
        }),
{
    let start = PostNewPostView::Insert { post };
    let talk = conversation::<PostNewPost>(start, replies);
    let bound = publication_bound(replies[1]);
    if talk.asked.len() > bound {
        commands_are_pending::<PostNewPost>(start, replies, bound);
        lemma_publication_reached(post, replies, bound);
    }
    if in_turn(talk.asked, replies) && talk.outcome is None {
        all_handlers_accept_what_fits();
        unanswered_request_waits::<PostNewPost>(start, replies);
    }
}

/// Listing comments is answered once the document store has nothing more to
/// hand over.
pub proof fn listing_is_answered(
    username: Seq<char>,
    post_title: Seq<char>,
    replies: Seq<ReplyView>,
    end: nat,
)
    requires
        end < replies.len(),
        replies[end as int] == ReplyView::Found(None),
    ensures
        ({
            let start = GetPostCommentView::CacheGet { username, post_title };
            let talk = conversation::<GetPostComment>(start, replies);
            &&& talk.asked.len() <= end + 1
            &&& in_turn(talk.asked, replies) ==> talk.outcome is Some
        }),
{
    let start = GetPostCommentView::CacheGet { username, post_title };
    let talk = conversation::<GetPostComment>(start, replies);
    if talk.asked.len() > end + 1 {
        commands_are_pending::<GetPostComment>(start, replies, end + 1);
    }
    if in_turn(talk.asked, replies) && talk.outcome is None {
        all_handlers_accept_what_fits();
        unanswered_request_waits::<GetPostComment>(start, replies);
    }
}

/// Taking notifications is answered once the queue is empty.
pub proof fn notifications_are_answered(
    username: Seq<char>,
    replies: Seq<ReplyView>,
    end: nat,
)
    requires
        end < replies.len(),
        replies[end as int] == ReplyView::Fetched(None),
    ensures
        ({
            let start = GetUserNotificationView::OpenChannel { username };
            let talk = conversation::<GetUserNotification>(start, replies);
            &&& talk.asked.len() <= end + 1
            &&& in_turn(talk.asked, replies) ==> talk.outcome is Some
        }),
{
    let start = GetUserNotificationView::OpenChannel { username };
    let talk = conversation::<GetUserNotification>(start, replies);
    if talk.asked.len() > end + 1 {
        commands_are_pending::<GetUserNotification>(start, replies, end + 1);
    }
    if in_turn(talk.asked, replies) && talk.outcome is None {
        all_handlers_accept_what_fits();
        unanswered_request_waits::<GetUserNotification>(start, replies);
    }
}

} // verus!
