//! Surroundings that do what they are asked: a document store, a cache, a message
//! broker and an encoding, and what a request makes of them. Laws that speak of them say what
//! follows where the surroundings are like this.
use vstd::prelude::*;

use crate::comment::CommentView;
use crate::conversation::{
    after, answer_ends_conversation, commands_are_pending, conversation, reached,
    reached_states_ask,
};
use crate::dialogue::{
    CacheValueView, CommandView, Handler, NextView, RecordView, ReplyView,
};
use crate::mongo::{FieldView, Fields, IndexView};
use crate::post::PostView;
use crate::user::UserView;

verus! {

/// A document of the document store: a record, and numbers that the record
/// does not have but updates have added.
pub struct Stored {
    pub record: RecordView,
    pub counters: Map<Seq<char>, int>,
}

impl Stored {
    /// The number under a key. One that has never been written is zero.
    pub open spec fn count(self, key: Seq<char>) -> int {
        if self.counters.contains_key(key) {
            self.counters[key]
        } else {
            0
        }
    }
}

/// The content of the cache.
pub type Cache = Map<Seq<char>, Seq<u8>>;

/// What the cache holds under a key.
pub open spec fn cached(cache: Cache, key: Seq<char>) -> CacheValueView {
    if cache.contains_key(key) {
        CacheValueView::Data(cache[key])
    } else {
        CacheValueView::Nil
    }
}

/// What requests read and write.
pub struct World {
    /// The documents of each collection, in the order in which they were
    /// inserted.
    pub store: Map<Seq<char>, Seq<Stored>>,
    pub cache: Cache,
    /// What the last search has found and not handed over yet.
    pub found: Seq<RecordView>,
    /// The messages in each queue that exists, the oldest first.
    pub queues: Map<Seq<char>, Seq<Seq<u8>>>,
}

impl World {
    /// The documents of a collection.
    pub open spec fn documents(self, collection: Seq<char>) -> Seq<Stored> {
        if self.store.contains_key(collection) {
            self.store[collection]
        } else {
            Seq::empty()
        }
    }

    /// The world with other documents in a collection.
    pub open spec fn with_documents(self, collection: Seq<char>, documents: Seq<Stored>) -> World {
        World { store: self.store.insert(collection, documents), ..self }
    }

    /// The messages in a queue.
    pub open spec fn messages(self, queue: Seq<char>) -> Seq<Seq<u8>> {
        if self.queues.contains_key(queue) {
            self.queues[queue]
        } else {
            Seq::empty()
        }
    }

    /// The world with a queue, as it is if it exists, else empty.
    pub open spec fn with_queue(self, queue: Seq<char>) -> World {
        World { queues: self.queues.insert(queue, self.messages(queue)), ..self }
    }

    /// The world with one more message in a queue. A message to a queue that
    /// does not exist is lost.
    pub open spec fn told(self, queue: Seq<char>, message: Seq<u8>) -> World {
        if self.queues.contains_key(queue) {
            World { queues: self.queues.insert(queue, self.queues[queue].push(message)), ..self }
        } else {
            self
        }
    }

    /// The world with more messages in a queue, in order. They are lost where the
    /// queue does not exist.
    pub open spec fn told_all(self, queue: Seq<char>, messages: Seq<Seq<u8>>) -> World {
        if self.queues.contains_key(queue) {
            World { queues: self.queues.insert(queue, self.queues[queue] + messages), ..self }
        } else {
            self
        }
    }

    /// The world without the oldest message of a queue.
    pub open spec fn without_oldest(self, queue: Seq<char>) -> World {
        World { queues: self.queues.insert(queue, self.queues[queue].drop_first()), ..self }
    }

    /// The world with an entry in the cache.
    pub open spec fn with_cached(self, key: Seq<char>, value: Seq<u8>) -> World {
        World { cache: self.cache.insert(key, value), ..self }
    }
}

/// Telling one message more is telling the message after the others.
pub(crate) proof fn lemma_told_one_more(
    world: World,
    queue: Seq<char>,
    messages: Seq<Seq<u8>>,
    message: Seq<u8>,
)
    ensures
        world.told_all(queue, messages).told(queue, message).queues == world.told_all(
            queue,
            messages.push(message),
        ).queues,
{
    if world.queues.contains_key(queue) {
        let there = world.queues[queue];
        assert((there + messages).push(message) =~= there + messages.push(message));
        assert(world.told_all(queue, messages).told(queue, message).queues
            =~= world.queues.insert(queue, there + messages.push(message)));
    }
}

/// How the surroundings are set up: the indexes of the document store, and
/// the JSON of each record.
pub struct Setup {
    pub indexes: Seq<IndexView>,
    pub json: spec_fn(RecordView) -> Seq<u8>,
}

/// The text in a field of a record, if the record has such a field.
pub open spec fn text_of(record: RecordView, key: Seq<char>) -> Option<Seq<char>> {
    match record {
        RecordView::User(user) => if key == "username"@ {
            Some(user.username)
        } else if key == "name"@ {
            Some(user.name)
        } else if key == "email"@ {
            Some(user.email)
        } else if key == "password"@ {
            Some(user.password)
        } else {
            None
        },
        RecordView::Post(post) => if key == "author"@ {
            Some(post.author)
        } else if key == "title"@ {
            Some(post.title)
        } else if key == "content"@ {
            Some(post.content)
        } else {
            None
        },
        RecordView::Comment(comment) => if key == "post_author"@ {
            Some(comment.post_author)
        } else if key == "post_title"@ {
            Some(comment.post_title)
        } else if key == "title"@ {
            Some(comment.title)
        } else if key == "content"@ {
            Some(comment.content)
        } else if key == "author"@ {
            Some(comment.author)
        } else {
            None
        },
        RecordView::Notification(_) => None,
    }
}

/// Whether a record has the texts that a filter asks for.
pub open spec fn meets(record: RecordView, filter: Fields) -> bool {
    forall|i: int|
        0 <= i < filter.len() ==> ((#[trigger] filter[i]).1 matches FieldView::Text(text)
            && text_of(record, filter[i].0) == Some(text))
}

/// Whether the document at `place`, and no other, meets a filter.
pub open spec fn only_match(documents: Seq<Stored>, filter: Fields, place: int) -> bool {
    &&& 0 <= place < documents.len()
    &&& meets(documents[place].record, filter)
    &&& forall|i: int|
        0 <= i < documents.len() && meets((#[trigger] documents[i]).record, filter) ==> i
            == place
}

/// Whether no document meets a filter.
pub open spec fn no_match(documents: Seq<Stored>, filter: Fields) -> bool {
    forall|i: int| 0 <= i < documents.len() ==> !meets((#[trigger] documents[i]).record, filter)
}

/// The records that meet a filter.
pub open spec fn matches_of(documents: Seq<Stored>, filter: Fields) -> Seq<RecordView> {
    documents.map_values(|stored: Stored| stored.record).filter(
        |record: RecordView| meets(record, filter),
    )
}

/// The list of texts in a field of a record, if the record has such a field.
pub open spec fn texts_of(record: RecordView, key: Seq<char>) -> Option<Seq<Seq<char>>> {
    match record {
        RecordView::User(user) => if key == "followers"@ {
            Some(user.followers)
        } else if key == "following"@ {
            Some(user.following)
        } else if key == "posts"@ {
            Some(user.posts)
        } else {
            None
        },
        RecordView::Post(post) => if key == "likes"@ {
            Some(post.likes)
        } else if key == "comments"@ {
            Some(post.comments)
        } else {
            None
        },
        RecordView::Comment(comment) => if key == "likers"@ {
            Some(comment.likers)
        } else {
            None
        },
        RecordView::Notification(_) => None,
    }
}

/// The record with another list of texts in a field that it has.
pub open spec fn with_texts(
    record: RecordView,
    key: Seq<char>,
    texts: Seq<Seq<char>>,
) -> RecordView {
    match record {
        RecordView::User(user) => if key == "followers"@ {
            RecordView::User(UserView { followers: texts, ..user })
        } else if key == "following"@ {
            RecordView::User(UserView { following: texts, ..user })
        } else {
            RecordView::User(UserView { posts: texts, ..user })
        },
        RecordView::Post(post) => if key == "likes"@ {
            RecordView::Post(PostView { likes: texts, ..post })
        } else {
            RecordView::Post(PostView { comments: texts, ..post })
        },
        RecordView::Comment(comment) => RecordView::Comment(
            CommentView { likers: texts, ..comment },
        ),
        RecordView::Notification(_) => record,
    }
}

/// A list with a text added, unless it has the text.
pub open spec fn with_text(texts: Seq<Seq<char>>, text: Seq<char>) -> Seq<Seq<char>> {
    if texts.contains(text) {
        texts
    } else {
        texts.push(text)
    }
}

/// What an operator makes of a document: `$push` appends to a list,
/// `$addToSet` appends what the list does not have, `$inc` adds to a number.
pub open spec fn operated(
    stored: Stored,
    operator: Seq<char>,
    key: Seq<char>,
    value: FieldView,
) -> Option<Stored> {
    let record = stored.record;
    match value {
        FieldView::Text(text) => match texts_of(record, key) {
            Some(texts) => if operator == "$push"@ {
                Some(Stored { record: with_texts(record, key, texts.push(text)), ..stored })
            } else if operator == "$addToSet"@ {
                Some(Stored { record: with_texts(record, key, with_text(texts, text)), ..stored })
            } else {
                None
            },
            None => None,
        },
        FieldView::Texts(pair) => match record {
            RecordView::User(user) => if operator == "$push"@ && key == "likes_posts"@
                && pair.len() == 2 {
                let likes_posts = user.likes_posts.push((pair[0], pair[1]));
                let record = RecordView::User(UserView { likes_posts, ..user });
                Some(Stored { record, ..stored })
            } else {
                None
            },
            _ => None,
        },
        FieldView::Int(number) => if operator == "$inc"@ && record is Post && key
            == "number_of_likes"@ {
            let counters = stored.counters.insert(key, stored.count(key) + number);
            Some(Stored { counters, ..stored })
        } else {
            None
        },
        FieldView::Nested(_) => None,
    }
}

/// What an update of one operator on one field makes of a document.
pub open spec fn updated(stored: Stored, update: Fields) -> Option<Stored> {
    match update[0].1 {
        FieldView::Nested(fields) => if update.len() == 1 && fields.len() == 1 {
            operated(stored, update[0].0, fields[0].0, fields[0].1)
        } else {
            None
        },
        _ => None,
    }
}

/// Whether an index keeps two records apart: they have the same texts in its
/// fields. A field that neither record has is the same in both.
pub open spec fn collide(index: IndexView, one: RecordView, other: RecordView) -> bool {
    &&& index.unique
    &&& forall|i: int|
        0 <= i < index.keys.len() ==> text_of(one, (#[trigger] index.keys[i]).0) == text_of(
            other,
            index.keys[i].0,
        )
}

/// Whether an index keeps a record out of a collection.
pub open spec fn kept_out(
    setup: Setup,
    world: World,
    collection: Seq<char>,
    record: RecordView,
) -> bool {
    exists|i: int, j: int|
        0 <= i < setup.indexes.len() && 0 <= j < world.documents(collection).len()
            && setup.indexes[i].collection == collection && #[trigger] collide(
            setup.indexes[i],
            world.documents(collection)[j].record,
            record,
        )
}

/// Whether the document at `place` meets the filter and is updated, and
/// `record` is what is handed back of it.
pub open spec fn updated_at(
    before: World,
    collection: Seq<char>,
    filter: Fields,
    update: Fields,
    return_updated: bool,
    record: RecordView,
    after: World,
    place: int,
) -> bool {
    let documents = before.documents(collection);
    &&& 0 <= place < documents.len()
    &&& meets(documents[place].record, filter)
    &&& updated(documents[place], update) matches Some(stored)
    &&& after == before.with_documents(collection, documents.update(place, stored))
    &&& record == if return_updated {
        stored.record
    } else {
        documents[place].record
    }
}

/// Whether `reply` is what comes of a command, and `after` is what it makes
/// of the world. Nothing fails but an insertion that an index forbids and a
/// fetch from a queue that does not exist. The exchange without a name delivers
/// to the queue that the routing key names.
pub open spec fn performed(
    setup: Setup,
    before: World,
    command: CommandView,
    reply: ReplyView,
    after: World,
) -> bool {
    match command {
        CommandView::Insert { collection, record } => if kept_out(
            setup,
            before,
            collection,
            record,
        ) {
            reply is Failed && after == before
        } else {
            let stored = Stored { record, counters: Map::empty() };
            reply == ReplyView::Done && after == before.with_documents(
                collection,
                before.documents(collection).push(stored),
            )
        },
        CommandView::FindOne { kind, collection, filter } => {
            let documents = before.documents(collection);
            &&& after == before
            &&& match reply {
                ReplyView::Found(None) => no_match(documents, filter),
                ReplyView::Found(Some(record)) => {
                    &&& record.kind() == kind
                    &&& meets(record, filter)
                    &&& exists|i: int|
                        0 <= i < documents.len() && (#[trigger] documents[i]).record == record
                },
                _ => false,
            }
        },
        CommandView::FindOneAndUpdate { kind, collection, filter, update, return_updated } =>
            match reply {
                ReplyView::Found(None) => no_match(before.documents(collection), filter) && after
                    == before,
                ReplyView::Found(Some(record)) => record.kind() == kind && exists|place: int|
                    #[trigger] updated_at(
                        before,
                        collection,
                        filter,
                        update,
                        return_updated,
                        record,
                        after,
                        place,
                    ),
                _ => false,
            },
        CommandView::Find { collection, filter, .. } => {
            &&& reply == ReplyView::Done
            &&& after == World { found: after.found, ..before }
            &&& after.found.to_multiset() == matches_of(
                before.documents(collection),
                filter,
            ).to_multiset()
        },
        CommandView::NextFound { kind } => if before.found.len() == 0 {
            reply == ReplyView::Found(None) && after == before
        } else {
            &&& before.found[0].kind() == kind
            &&& reply == ReplyView::Found(Some(before.found[0]))
            &&& after == World { found: before.found.drop_first(), ..before }
        },
        CommandView::EncodeJson { record } => {
            &&& reply == ReplyView::Encoded((setup.json)(record))
            &&& after == before
        },
        CommandView::DecodeJson { kind, bytes } => {
            &&& reply matches ReplyView::Decoded(record)
            &&& record.kind() == kind
            &&& (setup.json)(record) == bytes
            &&& after == before
        },
        CommandView::CacheGet { key } => {
            &&& reply == ReplyView::Cached(cached(before.cache, key))
            &&& after == before
        },
        CommandView::CacheSet { key, value } => {
            &&& reply == ReplyView::Done
            &&& after == before.with_cached(key, value)
        },
        CommandView::DeclareQueue { queue } => {
            &&& reply == ReplyView::Done
            &&& after == before.with_queue(queue)
        },
        CommandView::Publish { exchange, routing_key, payload } => {
            &&& reply == ReplyView::Done
            &&& exchange == ""@
            &&& after == before.told(routing_key, payload)
        },
        CommandView::Fetch { queue } => if !before.queues.contains_key(queue) {
            reply is Failed && after == before
        } else if before.queues[queue].len() == 0 {
            reply == ReplyView::Fetched(None) && after == before
        } else {
            &&& reply matches ReplyView::Fetched(Some(delivery))
            &&& delivery.data == before.queues[queue][0]
            &&& after == before.without_oldest(queue)
        },
        CommandView::OpenChannel => reply == ReplyView::Done && after == before,
        CommandView::Acknowledge { .. } => reply == ReplyView::Done && after == before,
    }
}

/// Whether the world goes through `worlds` while commands are performed one
/// after the other.
pub open spec fn history(
    setup: Setup,
    asked: Seq<CommandView>,
    replies: Seq<ReplyView>,
    worlds: Seq<World>,
) -> bool {
    &&& worlds.len() == asked.len() + 1
    &&& replies.len() >= asked.len()
    &&& forall|i: int|
        0 <= i < asked.len() ==> performed(
            setup,
            worlds[i],
            #[trigger] asked[i],
            replies[i],
            worlds[i + 1],
        )
}

/// Whether a request is answered, with nobody else at work, and takes the
/// world from `before` to `after`.
pub open spec fn served<H: Handler>(
    setup: Setup,
    start: H::V,
    replies: Seq<ReplyView>,
    before: World,
    after: World,
) -> bool {
    let talk = conversation::<H>(start, replies);
    &&& talk.outcome is Some
    &&& exists|worlds: Seq<World>|
        #[trigger] history(setup, talk.asked, replies, worlds) && worlds[0] == before
            && worlds.last() == after
}

/// Whether requests are served one after the other: the first from
/// `worlds[0]` on, each from where the one before it ended.
pub open spec fn served_in_a_row<H: Handler>(
    setup: Setup,
    starts: Seq<H::V>,
    replies: Seq<Seq<ReplyView>>,
    worlds: Seq<World>,
) -> bool {
    &&& worlds.len() == starts.len() + 1
    &&& replies.len() == starts.len()
    &&& forall|i: int|
        0 <= i < starts.len() ==> served::<H>(
            setup,
            #[trigger] starts[i],
            replies[i],
            worlds[i],
            worlds[i + 1],
        )
}

/// Requests in a row: all but the last are served in a row, and then the last
/// is served.
pub(crate) proof fn lemma_last_in_a_row<H: Handler>(
    setup: Setup,
    starts: Seq<H::V>,
    replies: Seq<Seq<ReplyView>>,
    worlds: Seq<World>,
)
    requires
        served_in_a_row::<H>(setup, starts, replies, worlds),
        starts.len() > 0,
    ensures
        served_in_a_row::<H>(
            setup,
            starts.drop_last(),
            replies.drop_last(),
            worlds.drop_last(),
        ),
        served::<H>(
            setup,
            starts.last(),
            replies.last(),
            worlds.drop_last().last(),
            worlds.last(),
        ),
{
    let last = starts.len() - 1;
    assert(served::<H>(setup, starts[last], replies[last], worlds[last], worlds[last + 1]));
    assert forall|i: int| 0 <= i < starts.drop_last().len() implies served::<H>(
        setup,
        #[trigger] starts.drop_last()[i],
        replies.drop_last()[i],
        worlds.drop_last()[i],
        worlds.drop_last()[i + 1],
    ) by {
        assert(starts.drop_last()[i] == starts[i]);
    }
}

/// The worlds that a request goes through.
pub open spec fn worlds_of<H: Handler>(
    setup: Setup,
    start: H::V,
    replies: Seq<ReplyView>,
    before: World,
    after: World,
) -> Seq<World> {
    choose|worlds: Seq<World>|
        #[trigger] history(setup, conversation::<H>(start, replies).asked, replies, worlds)
            && worlds[0] == before && worlds.last() == after
}

/// One step of a request: the command of the state that is reached is
/// performed, and the reply leads to the next state or is the last one.
pub(crate) proof fn lemma_step<H: Handler>(
    setup: Setup,
    start: H::V,
    replies: Seq<ReplyView>,
    worlds: Seq<World>,
    number: nat,
)
    requires
        history(setup, conversation::<H>(start, replies).asked, replies, worlds),
        reached::<H>(start, replies, number) is Some,
    ensures
        ({
            let talk = conversation::<H>(start, replies);
            let state = reached::<H>(start, replies, number)->0;
            &&& number < talk.asked.len()
            &&& talk.asked[number as int] == H::pending(state)
            &&& number < replies.len()
            &&& number + 1 < worlds.len()
            &&& performed(
                setup,
                worlds[number as int],
                H::pending(state),
                replies[number as int],
                worlds[(number + 1) as int],
            )
            &&& match after::<H>(state, replies[number as int]) {
                NextView::Ask(next) => reached::<H>(start, replies, number + 1) == Some(next),
                NextView::Respond(answer) => {
                    &&& talk.outcome == Some(answer)
                    &&& talk.asked.len() == number + 1
                    &&& worlds.last() == worlds[(number + 1) as int]
                },
                NextView::OutOfTurn(_) => true,
            }
        }),
{
    reached_states_ask::<H>(start, replies, number);
    commands_are_pending::<H>(start, replies, number);
    answer_ends_conversation::<H>(start, replies, number);
    let asked = conversation::<H>(start, replies).asked;
    assert(performed(
        setup,
        worlds[number as int],
        asked[number as int],
        replies[number as int],
        worlds[(number + 1) as int],
    ));
}

/// The keys and operators that the service uses are told apart.
pub(crate) proof fn lemma_words_differ()
    ensures
        "username"@ != "name"@,
        "username"@ != "author"@,
        "username"@ != "title"@,
        "username"@ != "content"@,
        "author"@ != "title"@,
        "post_author"@ != "post_title"@,
        "post_author"@ != "title"@,
        "post_title"@ != "title"@,
        "posts"@ != "followers"@,
        "posts"@ != "following"@,
        "comments"@ != "likes"@,
        "$addToSet"@ != "$push"@,
        "user"@ != "post"@,
        "user"@ != "comment"@,
        "post"@ != "comment"@,
{
    reveal_strlit("username");
    reveal_strlit("name");
    reveal_strlit("author");
    reveal_strlit("title");
    reveal_strlit("content");
    reveal_strlit("post_author");
    reveal_strlit("post_title");
    reveal_strlit("posts");
    reveal_strlit("followers");
    reveal_strlit("following");
    reveal_strlit("comments");
    reveal_strlit("likes");
    reveal_strlit("$addToSet");
    reveal_strlit("$push");
    reveal_strlit("user");
    reveal_strlit("post");
    reveal_strlit("comment");
    assert("username"@.len() == 8);
    assert("name"@.len() == 4);
    assert("author"@.len() == 6);
    assert("title"@.len() == 5);
    assert("content"@.len() == 7);
    assert("post_author"@.len() == 11);
    assert("post_title"@.len() == 10);
    assert("posts"@.len() == 5);
    assert("followers"@.len() == 9);
    assert("following"@.len() == 9);
    assert("comments"@.len() == 8);
    assert("likes"@.len() == 5);
    assert("$addToSet"@.len() == 9);
    assert("$push"@.len() == 5);
    assert("user"@[0] == 'u');
    assert("post"@[0] == 'p');
    assert("comment"@.len() == 7);
}

} // verus!
