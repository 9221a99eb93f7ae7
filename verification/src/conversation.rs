//! What a handler and its surroundings say to each other, as a whole.
use vstd::prelude::*;

use crate::dialogue::{
    fits, internal_error, CommandView, FailureView, Handler, Next, NextView, Reply, ReplyView,
};

verus! {

/// What a handler does about a reply.
pub open spec fn after<H: Handler>(state: H::V, reply: ReplyView) -> NextView<
    H::V,
    <H::Answer as DeepView>::V,
> {
    if !fits(H::pending(state), reply) {
        NextView::OutOfTurn(state)
    } else if let ReplyView::Failed(err) = reply {
        NextView::Respond(Err(internal_error(H::complaint(state, err))))
    } else {
        H::accepted(state, reply)
    }
}

/// What [`Handler::resume`] returns is what the handler does about the reply.
pub proof fn resume_follows<H: Handler>(handler: H, reply: Reply, next: Next<H, H::Answer>)
    requires
        call_ensures(H::resume, (handler, reply), next),
    ensures
        next.deep_view() == after::<H>(handler.deep_view(), reply.deep_view()),
{
}

/// What came of a request.
pub struct Conversation<A> {
    /// The commands that the handler had, in order.
    pub asked: Seq<CommandView>,
    /// The answer to the request, if there is one yet.
    pub outcome: Option<Result<A, FailureView>>,
}

/// The rest of a conversation: the handler is in `state`, and the replies
/// from `from` on are still to come.
pub open spec fn rest_of_conversation<H: Handler>(
    state: H::V,
    replies: Seq<ReplyView>,
    from: nat,
) -> Conversation<<H::Answer as DeepView>::V>
    decreases replies.len() - from,
{
    let now = seq![H::pending(state)];
    if from >= replies.len() {
        Conversation { asked: now, outcome: None }
    } else {
        match after::<H>(state, replies[from as int]) {
            NextView::Ask(next) => {
                let rest = rest_of_conversation::<H>(next, replies, from + 1);
                Conversation { asked: now + rest.asked, outcome: rest.outcome }
            },
            NextView::Respond(answer) => Conversation { asked: now, outcome: Some(answer) },
            NextView::OutOfTurn(_) => Conversation { asked: now, outcome: None },
        }
    }
}

/// The conversation of a handler that starts in `state` and gets `replies`.
/// It ends with the answer, with a reply that is refused, or where there are
/// no more replies.
pub open spec fn conversation<H: Handler>(
    state: H::V,
    replies: Seq<ReplyView>,
) -> Conversation<<H::Answer as DeepView>::V> {
    rest_of_conversation::<H>(state, replies, 0)
}

/// A command that failed is the last one of its request, and the request is
/// answered with an internal server error and the complaint about it.
pub proof fn failure_ends_request<H: Handler>(
    state: H::V,
    replies: Seq<ReplyView>,
    err: Seq<char>,
)
    requires
        replies.len() > 0,
        replies[0] == ReplyView::Failed(err),
    ensures
        conversation::<H>(state, replies).asked == seq![H::pending(state)],
        conversation::<H>(state, replies).outcome == Some(
            Err::<<H::Answer as DeepView>::V, FailureView>(
                internal_error(H::complaint(state, err)),
            ),
        ),
{
}

/// The rest of a conversation depends on the replies that are still to come,
/// not on those that have been.
proof fn lemma_only_later_replies_matter<H: Handler>(
    state: H::V,
    replies: Seq<ReplyView>,
    from: nat,
    others: Seq<ReplyView>,
    others_from: nat,
)
    requires
        from <= replies.len(),
        others_from <= others.len(),
        replies.skip(from as int) == others.skip(others_from as int),
    ensures
        rest_of_conversation::<H>(state, replies, from) == rest_of_conversation::<H>(
            state,
            others,
            others_from,
        ),
    decreases replies.len() - from,
{
    let left = replies.skip(from as int);
    assert(left.len() == others.skip(others_from as int).len());
    if from < replies.len() {
        assert(left[0] == replies[from as int]);
        assert(left[0] == others[others_from as int]);
        if let NextView::Ask(next) = after::<H>(state, left[0]) {
            assert(replies.skip((from + 1) as int) =~= left.drop_first());
            assert(others.skip((others_from + 1) as int) =~= left.drop_first());
            lemma_only_later_replies_matter::<H>(
                next,
                replies,
                from + 1,
                others,
                others_from + 1,
            );
        }
    }
}

/// A request that goes on after a reply goes on as one that starts where the
/// reply led.
pub proof fn conversation_goes_on<H: Handler>(
    state: H::V,
    replies: Seq<ReplyView>,
    next: H::V,
)
    requires
        replies.len() > 0,
        after::<H>(state, replies[0]) == NextView::<H::V, <H::Answer as DeepView>::V>::Ask(next),
    ensures
        conversation::<H>(state, replies).asked == seq![H::pending(state)] + conversation::<H>(
            next,
            replies.drop_first(),
        ).asked,
        conversation::<H>(state, replies).outcome == conversation::<H>(
            next,
            replies.drop_first(),
        ).outcome,
{
    let later = replies.drop_first();
    assert(replies.skip(1) =~= later.skip(0));
    lemma_only_later_replies_matter::<H>(next, replies, 1, later, 0);
}

/// A request that has been answered has no more commands, whatever else is
/// replied.
pub proof fn answer_is_final<H: Handler>(
    state: H::V,
    replies: Seq<ReplyView>,
    more: Seq<ReplyView>,
)
    requires
        conversation::<H>(state, replies).outcome is Some,
    ensures
        conversation::<H>(state, replies + more) == conversation::<H>(state, replies),
    decreases replies.len(),
{
    let all = replies + more;
    if replies.len() > 0 {
        assert(all[0] == replies[0]);
        if let NextView::Ask(next) = after::<H>(state, replies[0]) {
            conversation_goes_on::<H>(state, replies, next);
            conversation_goes_on::<H>(state, all, next);
            assert(all.drop_first() =~= replies.drop_first() + more);
            answer_is_final::<H>(next, replies.drop_first(), more);
        }
    }
}

/// A reply that cannot be what came of the pending command changes nothing:
/// the handler still has the command that it had.
pub proof fn refused_reply_changes_nothing<H: Handler>(state: H::V, reply: ReplyView)
    requires
        !fits(H::pending(state), reply),
    ensures
        after::<H>(state, reply) == NextView::<H::V, <H::Answer as DeepView>::V>::OutOfTurn(
            state,
        ),
{
}

/// The state in which a handler is after `number` replies, if it has not
/// answered or refused one of them.
pub open spec fn reached<H: Handler>(
    start: H::V,
    replies: Seq<ReplyView>,
    number: nat,
) -> Option<H::V>
    decreases number,
{
    if number == 0 {
        Some(start)
    } else if number > replies.len() {
        None
    } else {
        match reached::<H>(start, replies, (number - 1) as nat) {
            Some(state) => match after::<H>(state, replies[number - 1]) {
                NextView::Ask(next) => Some(next),
                _ => None,
            },
            None => None,
        }
    }
}

/// A conversation is what was said until a state, and the rest from there on.
proof fn lemma_rest_from_reached<H: Handler>(
    start: H::V,
    replies: Seq<ReplyView>,
    number: nat,
)
    requires
        reached::<H>(start, replies, number) is Some,
    ensures
        ({
            let talk = conversation::<H>(start, replies);
            let state = reached::<H>(start, replies, number)->0;
            let rest = rest_of_conversation::<H>(state, replies, number);
            &&& talk.asked.len() == number + rest.asked.len()
            &&& talk.asked[number as int] == H::pending(state)
            &&& talk.asked.skip(number as int) == rest.asked
            &&& talk.outcome == rest.outcome
        }),
    decreases number,
{
    let asked = conversation::<H>(start, replies).asked;
    if number == 0 {
        assert(asked.skip(0) =~= asked);
    } else {
        let before = (number - 1) as nat;
        lemma_rest_from_reached::<H>(start, replies, before);
        let state = reached::<H>(start, replies, number)->0;
        let rest = rest_of_conversation::<H>(state, replies, number);
        assert(asked.skip(before as int).skip(1) =~= rest.asked);
        assert(asked.skip(number as int) =~= asked.skip(before as int).skip(1));
        assert(asked.skip(number as int)[0] == asked[number as int]);
    }
}

/// As long as a conversation has commands, the handler is in a state, and the
/// command is the pending one of that state.
pub proof fn commands_are_pending<H: Handler>(
    start: H::V,
    replies: Seq<ReplyView>,
    number: nat,
)
    requires
        number < conversation::<H>(start, replies).asked.len(),
    ensures
        number <= replies.len(),
        reached::<H>(start, replies, number) is Some,
        conversation::<H>(start, replies).asked[number as int] == H::pending(
            reached::<H>(start, replies, number)->0,
        ),
    decreases number,
{
    if number > 0 {
        let before = (number - 1) as nat;
        commands_are_pending::<H>(start, replies, before);
        lemma_rest_from_reached::<H>(start, replies, before);
    }
    lemma_rest_from_reached::<H>(start, replies, number);
}

/// A state that the handler is in has its pending command in the
/// conversation.
pub proof fn reached_states_ask<H: Handler>(start: H::V, replies: Seq<ReplyView>, number: nat)
    requires
        reached::<H>(start, replies, number) is Some,
    ensures
        number < conversation::<H>(start, replies).asked.len(),
{
    lemma_rest_from_reached::<H>(start, replies, number);
}

/// The answer to a request is the handler's answer to the reply to the last
/// command.
pub proof fn answer_follows_last_reply<H: Handler>(start: H::V, replies: Seq<ReplyView>)
    requires
        conversation::<H>(start, replies).outcome is Some,
    ensures
        ({
            let talk = conversation::<H>(start, replies);
            let last = (talk.asked.len() - 1) as nat;
            &&& 0 < talk.asked.len() <= replies.len()
            &&& reached::<H>(start, replies, last) is Some
            &&& after::<H>(reached::<H>(start, replies, last)->0, replies[last as int])
                == NextView::<H::V, <H::Answer as DeepView>::V>::Respond(talk.outcome->0)
        }),
{
    let talk = conversation::<H>(start, replies);
    assert(talk.asked.len() > 0);
    let last = (talk.asked.len() - 1) as nat;
    commands_are_pending::<H>(start, replies, last);
    lemma_rest_from_reached::<H>(start, replies, last);
    let state = reached::<H>(start, replies, last)->0;
    if let NextView::Ask(next) = after::<H>(state, replies[last as int]) {
        let later = rest_of_conversation::<H>(next, replies, last + 1);
        assert(later.asked.len() > 0);
    }
}

/// Where the handler answers a reply, that is the answer to the request, and
/// there are no more commands.
pub proof fn answer_ends_conversation<H: Handler>(
    start: H::V,
    replies: Seq<ReplyView>,
    number: nat,
)
    requires
        number < replies.len(),
        reached::<H>(start, replies, number) is Some,
    ensures
        after::<H>(
            reached::<H>(start, replies, number)->0,
            replies[number as int],
        ) matches NextView::Respond(answer) ==> {
            &&& conversation::<H>(start, replies).outcome == Some(answer)
            &&& conversation::<H>(start, replies).asked.len() == number + 1
        },
{
    lemma_rest_from_reached::<H>(start, replies, number);
}

/// A request that succeeds had no command that failed.
pub proof fn success_means_no_failure<H: Handler>(
    start: H::V,
    replies: Seq<ReplyView>,
    number: nat,
)
    requires
        conversation::<H>(start, replies).outcome matches Some(Ok(_)),
        number < conversation::<H>(start, replies).asked.len(),
    ensures
        fits(conversation::<H>(start, replies).asked[number as int], replies[number as int]),
        !(replies[number as int] is Failed),
{
    let talk = conversation::<H>(start, replies);
    answer_follows_last_reply::<H>(start, replies);
    commands_are_pending::<H>(start, replies, number);
    if number + 1 < talk.asked.len() {
        commands_are_pending::<H>(start, replies, number + 1);
    }
}

} // verus!
