//! What becomes of messages, where the message broker does what it is asked and
//! nobody else is at work.
use vstd::prelude::*;

use crate::conversation::{conversation, reached};
use crate::dialogue::{FailureView, RecordView, ReplyView};
use crate::laws::sharing::occurrences;
use crate::laws::storage::{announced, news_of_post, post_is_published};
use crate::mongo::text_field;
use crate::notification::{GetUserNotification, GetUserNotificationView, NotificationView};
use crate::post::{PostNewPost, PostNewPostView, PostView};
use crate::user::UserView;
use crate::world::{
    history, lemma_step, only_match, served, worlds_of, Setup, World,
};

verus! {

/// Whether notifications are what messages stand for, one by one.
pub open spec fn stand_for(
    setup: Setup,
    messages: Seq<Seq<u8>>,
    notifications: Seq<NotificationView>,
) -> bool {
    &&& notifications.len() == messages.len()
    &&& forall|i: int|
        0 <= i < messages.len() ==> (setup.json)(
            RecordView::Notification(#[trigger] notifications[i]),
        ) == messages[i]
}

/// Whether no two notifications have the same JSON.
pub open spec fn tells_apart(setup: Setup) -> bool {
    forall|one: NotificationView, other: NotificationView|
        #[trigger] (setup.json)(RecordView::Notification(one)) == #[trigger] (setup.json)(
            RecordView::Notification(other),
        ) ==> one == other
}

/// The world with an empty queue.
pub open spec fn emptied(world: World, queue: Seq<char>) -> World {
    World { queues: world.queues.insert(queue, Seq::empty()), ..world }
}

/// From a fetch on, everything in the queue is taken and decoded.
proof fn lemma_queue_is_drained(
    setup: Setup,
    username: Seq<char>,
    replies: Seq<ReplyView>,
    worlds: Seq<World>,
    number: nat,
    received: Seq<NotificationView>,
) -> (later: Seq<NotificationView>)
    requires
        history(
            setup,
            conversation::<GetUserNotification>(
                GetUserNotificationView::OpenChannel { username },
                replies,
            ).asked,
            replies,
            worlds,
        ),
        number < worlds.len(),
        reached::<GetUserNotification>(
            GetUserNotificationView::OpenChannel { username },
            replies,
            number,
        ) == Some(GetUserNotificationView::Fetch { username, received }),
        worlds[number as int].queues.contains_key(username),
    ensures
        conversation::<GetUserNotification>(
            GetUserNotificationView::OpenChannel { username },
            replies,
        ).outcome == Some(Ok::<Seq<NotificationView>, FailureView>(received + later)),
        stand_for(setup, worlds[number as int].queues[username], later),
        worlds.last() == emptied(worlds[number as int], username),
    decreases worlds[number as int].queues[username].len(),
{
    let start = GetUserNotificationView::OpenChannel { username };
    let before = worlds[number as int];
    let queue = before.queues[username];
    lemma_step::<GetUserNotification>(setup, start, replies, worlds, number);
    if queue.len() == 0 {
        let later = Seq::<NotificationView>::empty();
        assert(received + later =~= received);
        assert(queue =~= Seq::empty());
        assert(before.queues.insert(username, Seq::empty()) =~= before.queues);
        later
    } else {
        lemma_step::<GetUserNotification>(setup, start, replies, worlds, number + 1);
        lemma_step::<GetUserNotification>(setup, start, replies, worlds, number + 2);
        let notification = replies[(number + 2) as int]->Decoded_0->Notification_0;
        let rest = lemma_queue_is_drained(
            setup,
            username,
            replies,
            worlds,
            number + 3,
            received.push(notification),
        );
        let later = seq![notification] + rest;
        assert(received.push(notification) + rest =~= received + later);
        assert forall|i: int| 0 <= i < queue.len() implies (setup.json)(
            RecordView::Notification(#[trigger] later[i]),
        ) == queue[i] by {
            if i > 0 {
                assert(later[i] == rest[i - 1]);
                assert(queue.drop_first()[i - 1] == queue[i]);
            }
        }
        assert(worlds.last().queues =~= before.queues.insert(username, Seq::empty()));
        later
    }
}

/// A user who asks for notifications gets what the messages in the user's queue
/// stand for, all of them, the oldest first. The queue is empty then, and
/// nothing else has changed.
pub proof fn notifications_are_the_messages(
    setup: Setup,
    username: Seq<char>,
    replies: Seq<ReplyView>,
    before: World,
    after: World,
)
    requires
        before.queues.contains_key(username),
        served::<GetUserNotification>(
            setup,
            GetUserNotificationView::OpenChannel { username },
            replies,
            before,
            after,
        ),
    ensures
        conversation::<GetUserNotification>(
            GetUserNotificationView::OpenChannel { username },
            replies,
        ).outcome matches Some(Ok(notifications)) && stand_for(
            setup,
            before.queues[username],
            notifications,
        ),
        after == emptied(before, username),
{
    let start = GetUserNotificationView::OpenChannel { username };
    let worlds = worlds_of::<GetUserNotification>(setup, start, replies, before, after);
    lemma_step::<GetUserNotification>(setup, start, replies, worlds, 0);
    let all = lemma_queue_is_drained(setup, username, replies, worlds, 1, Seq::empty());
    assert(Seq::<NotificationView>::empty() + all =~= all);
}

/// Without a queue, a request for notifications fails and changes nothing.
proof fn lemma_no_queue_fails(
    setup: Setup,
    username: Seq<char>,
    replies: Seq<ReplyView>,
    before: World,
    after: World,
)
    requires
        !before.queues.contains_key(username),
        served::<GetUserNotification>(
            setup,
            GetUserNotificationView::OpenChannel { username },
            replies,
            before,
            after,
        ),
    ensures
        conversation::<GetUserNotification>(
            GetUserNotificationView::OpenChannel { username },
            replies,
        ).outcome matches Some(Err(_)),
{
    let start = GetUserNotificationView::OpenChannel { username };
    let worlds = worlds_of::<GetUserNotification>(setup, start, replies, before, after);
    lemma_step::<GetUserNotification>(setup, start, replies, worlds, 0);
    lemma_step::<GetUserNotification>(setup, start, replies, worlds, 1);
}

/// A notification is given at most once: right after a request for
/// notifications that succeeded, another one gets none.
pub proof fn notifications_are_given_once(
    setup: Setup,
    username: Seq<char>,
    first: Seq<ReplyView>,
    second: Seq<ReplyView>,
    before: World,
    between: World,
    after: World,
)
    requires
        served::<GetUserNotification>(
            setup,
            GetUserNotificationView::OpenChannel { username },
            first,
            before,
            between,
        ),
        conversation::<GetUserNotification>(
            GetUserNotificationView::OpenChannel { username },
            first,
        ).outcome matches Some(Ok(_)),
        served::<GetUserNotification>(
            setup,
            GetUserNotificationView::OpenChannel { username },
            second,
            between,
            after,
        ),
    ensures
        conversation::<GetUserNotification>(
            GetUserNotificationView::OpenChannel { username },
            second,
        ).outcome == Some(Ok::<Seq<NotificationView>, FailureView>(Seq::empty())),
        after == between,
{
    if !before.queues.contains_key(username) {
        lemma_no_queue_fails(setup, username, first, before, between);
    }
    notifications_are_the_messages(setup, username, first, before, between);
    notifications_are_the_messages(setup, username, second, between, after);
    let start = GetUserNotificationView::OpenChannel { username };
    let given = conversation::<GetUserNotification>(start, second).outcome->0->Ok_0;
    assert(given =~= Seq::empty());
    assert(after.queues =~= between.queues);
}

/// How often a name is on a list, counted from the end.
proof fn lemma_occurrences_at_end(name: Seq<char>, names: Seq<Seq<char>>)
    requires
        names.len() > 0,
    ensures
        occurrences(name, names) == occurrences(name, names.drop_last()) + if names.last() == name {
            1nat
        } else {
            0nat
        },
    decreases names.len(),
{
    reveal_with_fuel(occurrences, 2);
    if names.len() > 1 {
        lemma_occurrences_at_end(name, names.drop_first());
        assert(names.drop_first().drop_last() =~= names.drop_last().drop_first());
    }
}

/// Announcing to followers leaves all but the queues as it is. A queue gets the
/// message as often as its name is on the list, after what it had, and the
/// queue of every follower exists.
pub proof fn announcement_reaches_followers(
    world: World,
    followers: Seq<Seq<char>>,
    message: Seq<u8>,
    queue: Seq<char>,
)
    ensures
        ({
            let told = announced(world, followers, message);
            &&& told == World { queues: told.queues, ..world }
            &&& told.queues.contains_key(queue) <==> world.queues.contains_key(queue)
                || followers.contains(queue)
            &&& told.messages(queue) == world.messages(queue) + Seq::new(
                occurrences(queue, followers),
                |i: int| message,
            )
        }),
    decreases followers.len(),
{
    let told = announced(world, followers, message);
    if followers.len() == 0 {
        assert(told.messages(queue) =~= world.messages(queue) + Seq::new(
            occurrences(queue, followers),
            |i: int| message,
        ));
    } else {
        let earlier = followers.drop_last();
        announcement_reaches_followers(world, earlier, message, queue);
        lemma_occurrences_at_end(queue, followers);
        assert(followers.contains(queue) <==> earlier.contains(queue) || followers.last() == queue)
            by {
            assert(followers =~= earlier.push(followers.last()));
            if earlier.contains(queue) {
                let i = choose|i: int| 0 <= i < earlier.len() && earlier[i] == queue;
                assert(followers[i] == queue);
            }
            if followers.contains(queue) {
                let i = choose|i: int| 0 <= i < followers.len() && followers[i] == queue;
                if i < earlier.len() {
                    assert(earlier[i] == queue);
                }
            }
            assert(followers[followers.len() - 1] == followers.last());
        }
        assert(told.messages(queue) =~= world.messages(queue) + Seq::new(
            occurrences(queue, followers),
            |i: int| message,
        ));
    }
}

/// A follower reads back the post that its author was answered with: after
/// what was in the follower's queue before, the follower gets the news of the
/// post, as often as the follower is on the author's list.
pub proof fn follower_reads_published_post(
    setup: Setup,
    post: PostView,
    author: UserView,
    place: int,
    follower: Seq<char>,
    first: Seq<ReplyView>,
    second: Seq<ReplyView>,
    before: World,
    between: World,
    after: World,
)
    requires
        tells_apart(setup),
        only_match(before.documents("user"@), text_field("username"@, post.author), place),
        before.documents("user"@)[place].record == RecordView::User(author),
        author.followers.contains(follower),
        served::<PostNewPost>(setup, PostNewPostView::Insert { post }, first, before, between),
        conversation::<PostNewPost>(PostNewPostView::Insert { post }, first).outcome matches Some(
            Ok(_),
        ),
        served::<GetUserNotification>(
            setup,
            GetUserNotificationView::OpenChannel { username: follower },
            second,
            between,
            after,
        ),
    ensures
        conversation::<GetUserNotification>(
            GetUserNotificationView::OpenChannel { username: follower },
            second,
        ).outcome matches Some(Ok(notifications)) && {
            let earlier = before.messages(follower);
            &&& notifications.contains(NotificationView::NewPost(post))
            &&& stand_for(setup, earlier, notifications.take(earlier.len() as int))
            &&& notifications.skip(earlier.len() as int) == Seq::new(
                occurrences(follower, author.followers),
                |i: int| NotificationView::NewPost(post),
            )
        },
{
    let message = news_of_post(setup, post);
    let news = NotificationView::NewPost(post);
    let number = occurrences(follower, author.followers);
    post_is_published(setup, post, first, before, between, place, author);
    let stored = choose|world: World|
        #[trigger] announced(world, author.followers, message) == between && world.queues
            == before.queues;
    announcement_reaches_followers(stored, author.followers, message, follower);
    notifications_are_the_messages(setup, follower, second, between, after);
    let start = GetUserNotificationView::OpenChannel { username: follower };
    let read = conversation::<GetUserNotification>(start, second).outcome->0->Ok_0;
    let earlier = before.messages(follower);
    let queue = between.queues[follower];
    let count = earlier.len() as int;
    assert(queue == earlier + Seq::new(number, |i: int| message));
    assert forall|i: int| 0 <= i < count implies (setup.json)(
        RecordView::Notification(#[trigger] read.take(count)[i]),
    ) == earlier[i] by {
        assert(read.take(count)[i] == read[i]);
        assert(queue[i] == earlier[i]);
    }
    assert forall|i: int| 0 <= i < number implies #[trigger] read.skip(count)[i] == news by {
        assert(read.skip(count)[i] == read[count + i]);
        assert(queue[count + i] == message);
        assert((setup.json)(RecordView::Notification(read[count + i])) == (setup.json)(
            RecordView::Notification(news),
        ));
    }
    assert(read.skip(count) =~= Seq::new(number, |i: int| news));
    lemma_listed_occurs(follower, author.followers);
    assert(read.skip(count)[0] == news);
    assert(read[count] == news);
}

/// A name that is on a list is there at least once.
proof fn lemma_listed_occurs(name: Seq<char>, names: Seq<Seq<char>>)
    requires
        names.contains(name),
    ensures
        occurrences(name, names) > 0,
    decreases names.len(),
{
    if names[0] != name {
        let i = choose|i: int| 0 <= i < names.len() && names[i] == name;
        assert(names.drop_first()[i - 1] == name);
        lemma_listed_occurs(name, names.drop_first());
    }
}

/// The newest message in a user's queue is the last of the notifications that
/// the user gets.
pub proof fn newest_message_is_read_last(
    setup: Setup,
    username: Seq<char>,
    news: NotificationView,
    replies: Seq<ReplyView>,
    before: World,
    between: World,
    after: World,
)
    requires
        tells_apart(setup),
        before.queues.contains_key(username),
        between.queues == before.told(
            username,
            (setup.json)(RecordView::Notification(news)),
        ).queues,
        served::<GetUserNotification>(
            setup,
            GetUserNotificationView::OpenChannel { username },
            replies,
            between,
            after,
        ),
    ensures
        conversation::<GetUserNotification>(
            GetUserNotificationView::OpenChannel { username },
            replies,
        ).outcome matches Some(Ok(notifications)) && notifications.len() > 0
            && notifications.last() == news && stand_for(
            setup,
            before.queues[username],
            notifications.drop_last(),
        ),
{
    notifications_are_the_messages(setup, username, replies, between, after);
    let start = GetUserNotificationView::OpenChannel { username };
    let read = conversation::<GetUserNotification>(start, replies).outcome->0->Ok_0;
    let queue = between.queues[username];
    let last = queue.len() - 1;
    assert(queue[last] == (setup.json)(RecordView::Notification(news)));
    assert((setup.json)(RecordView::Notification(read[last])) == (setup.json)(
        RecordView::Notification(news),
    ));
    assert forall|i: int| 0 <= i < last implies (setup.json)(
        RecordView::Notification(#[trigger] read.drop_last()[i]),
    ) == before.queues[username][i] by {
        assert(read.drop_last()[i] == read[i]);
    }
}

} // verus!
