use mongodb::bson::Document;
use vstd::prelude::*;

use crate::comment::{Comment, CommentView};
use crate::mongo::{document_fields, Fields};
use crate::notification::{Notification, NotificationView};
use crate::post::{Post, PostView};
use crate::user::{User, UserView};

verus! {

/// The type of a record, by which it is decoded.
#[derive(Debug, Clone, Copy, PartialEq, Eq, Structural)]
pub enum Kind {
    User,
    Post,
    Comment,
    Notification,
}

/// A value that is stored, cached or sent.
#[derive(Debug)]
pub enum Record {
    User(User),
    Post(Post),
    Comment(Comment),
    Notification(Notification),
}

/// The mathematical content of a [`Record`].
pub enum RecordView {
    User(UserView),
    Post(PostView),
    Comment(CommentView),
    Notification(NotificationView),
}

impl DeepView for Record {
    type V = RecordView;

    open spec fn deep_view(&self) -> RecordView {
        match self {
            Record::User(user) => RecordView::User(user.deep_view()),
            Record::Post(post) => RecordView::Post(post.deep_view()),
            Record::Comment(comment) => RecordView::Comment(comment.deep_view()),
            Record::Notification(notification) => RecordView::Notification(
                notification.deep_view(),
            ),
        }
    }
}

impl RecordView {
    pub open spec fn kind(self) -> Kind {
        match self {
            RecordView::User(_) => Kind::User,
            RecordView::Post(_) => Kind::Post,
            RecordView::Comment(_) => Kind::Comment,
            RecordView::Notification(_) => Kind::Notification,
        }
    }
}

/// What a handler wants done outside of the library.
#[derive(Debug)]
pub enum Command {
    /// Encode the record as a document and insert it into the collection.
    Insert { collection: &'static str, record: Record },
    /// Find one document of the collection.
    FindOne { kind: Kind, collection: &'static str, filter: Document },
    /// Update one document of the collection and hand it back: as it is
    /// after the update where `return_updated` holds, else as it was.
    FindOneAndUpdate {
        kind: Kind,
        collection: &'static str,
        filter: Document,
        update: Document,
        return_updated: bool,
    },
    /// Start to go through the documents of the collection that match.
    Find { kind: Kind, collection: &'static str, filter: Document },
    /// Hand over the next of the documents of the last `Find`.
    NextFound { kind: Kind },
    /// Encode the record as JSON.
    EncodeJson { record: Record },
    /// Decode JSON.
    DecodeJson { kind: Kind, bytes: Vec<u8> },
    /// Read a key of the cache.
    CacheGet { key: String },
    /// Write a key of the cache.
    CacheSet { key: String, value: Vec<u8> },
    /// Open a channel to the message broker. The broker commands that follow
    /// use it.
    OpenChannel,
    /// Make sure that the queue exists.
    DeclareQueue { queue: String },
    /// Send a message.
    Publish { exchange: &'static str, routing_key: String, payload: Vec<u8> },
    /// Take the next message, if any, from the queue.
    Fetch { queue: String },
    /// Acknowledge a message that was taken from a queue.
    Acknowledge { delivery_tag: u64 },
}

/// The mathematical content of a [`Command`].
pub enum CommandView {
    Insert { collection: Seq<char>, record: RecordView },
    FindOne { kind: Kind, collection: Seq<char>, filter: Fields },
    FindOneAndUpdate {
        kind: Kind,
        collection: Seq<char>,
        filter: Fields,
        update: Fields,
        return_updated: bool,
    },
    Find { kind: Kind, collection: Seq<char>, filter: Fields },
    NextFound { kind: Kind },
    EncodeJson { record: RecordView },
    DecodeJson { kind: Kind, bytes: Seq<u8> },
    CacheGet { key: Seq<char> },
    CacheSet { key: Seq<char>, value: Seq<u8> },
    OpenChannel,
    DeclareQueue { queue: Seq<char> },
    Publish { exchange: Seq<char>, routing_key: Seq<char>, payload: Seq<u8> },
    Fetch { queue: Seq<char> },
    Acknowledge { delivery_tag: u64 },
}

impl DeepView for Command {
    type V = CommandView;

    open spec fn deep_view(&self) -> CommandView {
        match self {
            Command::Insert { collection, record } => CommandView::Insert {
                collection: collection@,
                record: record.deep_view(),
            },
            Command::FindOne { kind, collection, filter } => CommandView::FindOne {
                kind: *kind,
                collection: collection@,
                filter: document_fields(*filter),
            },
            Command::FindOneAndUpdate { kind, collection, filter, update, return_updated } =>
                CommandView::FindOneAndUpdate {
                kind: *kind,
                collection: collection@,
                filter: document_fields(*filter),
                update: document_fields(*update),
                return_updated: *return_updated,
            },
            Command::Find { kind, collection, filter } => CommandView::Find {
                kind: *kind,
                collection: collection@,
                filter: document_fields(*filter),
            },
            Command::NextFound { kind } => CommandView::NextFound { kind: *kind },
            Command::EncodeJson { record } => CommandView::EncodeJson {
                record: record.deep_view(),
            },
            Command::DecodeJson { kind, bytes } => CommandView::DecodeJson {
                kind: *kind,
                bytes: bytes@,
            },
            Command::CacheGet { key } => CommandView::CacheGet { key: key@ },
            Command::CacheSet { key, value } => CommandView::CacheSet {
                key: key@,
                value: value@,
            },
            Command::OpenChannel => CommandView::OpenChannel,
            Command::DeclareQueue { queue } => CommandView::DeclareQueue { queue: queue@ },
            Command::Publish { exchange, routing_key, payload } => CommandView::Publish {
                exchange: exchange@,
                routing_key: routing_key@,
                payload: payload@,
            },
            Command::Fetch { queue } => CommandView::Fetch { queue: queue@ },
            Command::Acknowledge { delivery_tag } => CommandView::Acknowledge {
                delivery_tag: *delivery_tag,
            },
        }
    }
}

/// What the cache holds under a key.
#[derive(Debug)]
pub enum CacheValue {
    /// Nothing.
    Nil,
    /// Bytes.
    Data(Vec<u8>),
    /// A value of another type.
    Other,
}

/// The mathematical content of a [`CacheValue`].
pub enum CacheValueView {
    Nil,
    Data(Seq<u8>),
    Other,
}

impl DeepView for CacheValue {
    type V = CacheValueView;

    open spec fn deep_view(&self) -> CacheValueView {
        match self {
            CacheValue::Nil => CacheValueView::Nil,
            CacheValue::Data(bytes) => CacheValueView::Data(bytes@),
            CacheValue::Other => CacheValueView::Other,
        }
    }
}

/// A message taken from a queue.
#[derive(Debug)]
pub struct Delivery {
    pub delivery_tag: u64,
    pub data: Vec<u8>,
}

/// The mathematical content of a [`Delivery`].
pub struct DeliveryView {
    pub delivery_tag: u64,
    pub data: Seq<u8>,
}

impl DeepView for Delivery {
    type V = DeliveryView;

    open spec fn deep_view(&self) -> DeliveryView {
        DeliveryView { delivery_tag: self.delivery_tag, data: self.data@ }
    }
}

/// What came of a command.
#[derive(Debug)]
pub enum Reply {
    /// It failed; the text is that of the error.
    Failed(String),
    /// The record to insert could not be encoded; the text is that of the
    /// error.
    NotEncoded(String),
    /// It was done, and there is nothing to hand back.
    Done,
    /// The document that was found, if there was one.
    Found(Option<Record>),
    /// The JSON of the record.
    Encoded(Vec<u8>),
    /// The record that the JSON stands for.
    Decoded(Record),
    /// What the cache holds under the key.
    Cached(CacheValue),
    /// The message that was taken from the queue, if there was one.
    Fetched(Option<Delivery>),
}

/// The mathematical content of a [`Reply`].
pub enum ReplyView {
    Failed(Seq<char>),
    NotEncoded(Seq<char>),
    Done,
    Found(Option<RecordView>),
    Encoded(Seq<u8>),
    Decoded(RecordView),
    Cached(CacheValueView),
    Fetched(Option<DeliveryView>),
}

impl DeepView for Reply {
    type V = ReplyView;

    open spec fn deep_view(&self) -> ReplyView {
        match self {
            Reply::Failed(err) => ReplyView::Failed(err@),
            Reply::NotEncoded(err) => ReplyView::NotEncoded(err@),
            Reply::Done => ReplyView::Done,
            Reply::Found(record) => ReplyView::Found(record.deep_view()),
            Reply::Encoded(bytes) => ReplyView::Encoded(bytes@),
            Reply::Decoded(record) => ReplyView::Decoded(record.deep_view()),
            Reply::Cached(value) => ReplyView::Cached(value.deep_view()),
            Reply::Fetched(delivery) => ReplyView::Fetched(delivery.deep_view()),
        }
    }
}

/// Whether `reply` can be what came of `command`.
pub open spec fn fits(command: CommandView, reply: ReplyView) -> bool {
    match reply {
        ReplyView::Failed(_) => true,
        ReplyView::NotEncoded(_) => command is Insert,
        ReplyView::Done => {
            ||| command is Insert
            ||| command is Find
            ||| command is CacheSet
            ||| command is OpenChannel
            ||| command is DeclareQueue
            ||| command is Publish
            ||| command is Acknowledge
        },
        ReplyView::Found(found) => match command {
            CommandView::FindOne { kind, .. } => found matches Some(record) ==> record.kind()
                == kind,
            CommandView::FindOneAndUpdate { kind, .. } => found matches Some(record)
                ==> record.kind() == kind,
            CommandView::NextFound { kind } => found matches Some(record) ==> record.kind()
                == kind,
            _ => false,
        },
        ReplyView::Encoded(_) => command is EncodeJson,
        ReplyView::Decoded(record) => command matches CommandView::DecodeJson { kind, .. }
            && record.kind() == kind,
        ReplyView::Cached(_) => command is CacheGet,
        ReplyView::Fetched(_) => command is Fetch,
    }
}

/// The status with which a request fails.
#[derive(Debug, Clone, Copy, PartialEq, Eq, Structural)]
pub enum Status {
    BadRequest,
    NotFound,
    InternalServerError,
}

impl Status {
    /// The status code of HTTP.
    pub open spec fn code_spec(self) -> u16 {
        match self {
            Status::BadRequest => 400,
            Status::NotFound => 404,
            Status::InternalServerError => 500,
        }
    }

    /// The status code of HTTP.
    pub fn code(self) -> (code: u16)
        ensures
            code == self.code_spec(),
            self is BadRequest ==> code == 400,
            self is NotFound ==> code == 404,
            self is InternalServerError ==> code == 500,
    {
        match self {
            Status::BadRequest => 400,
            Status::NotFound => 404,
            Status::InternalServerError => 500,
        }
    }
}

/// The answer to a request that failed.
#[derive(Debug)]
pub struct Failure {
    pub status: Status,
    pub message: String,
}

/// The mathematical content of a [`Failure`].
pub struct FailureView {
    pub status: Status,
    pub message: Seq<char>,
}

impl DeepView for Failure {
    type V = FailureView;

    open spec fn deep_view(&self) -> FailureView {
        FailureView { status: self.status, message: self.message@ }
    }
}

/// What a handler does about a reply.
#[derive(Debug)]
pub enum Next<S, A> {
    /// It goes on, and has another command.
    Ask(S),
    /// It answers the request.
    Respond(Result<A, Failure>),
    /// The reply cannot be what came of the pending command. Nothing has
    /// changed.
    OutOfTurn(S),
}

/// The mathematical content of a [`Next`].
pub enum NextView<S, A> {
    Ask(S),
    Respond(Result<A, FailureView>),
    OutOfTurn(S),
}

impl<S: DeepView, A: DeepView> DeepView for Next<S, A> {
    type V = NextView<S::V, A::V>;

    open spec fn deep_view(&self) -> NextView<S::V, A::V> {
        match self {
            Next::Ask(state) => NextView::Ask(state.deep_view()),
            Next::Respond(Ok(answer)) => NextView::Respond(Ok(answer.deep_view())),
            Next::Respond(Err(failure)) => NextView::Respond(Err(failure.deep_view())),
            Next::OutOfTurn(state) => NextView::OutOfTurn(state.deep_view()),
        }
    }
}

/// The failure that blames the service or what it depends on.
pub open spec fn internal_error(message: Seq<char>) -> FailureView {
    FailureView { status: Status::InternalServerError, message }
}

/// A state machine that serves a request.
///
/// A state has one pending command. A reply that cannot be what came of it is
/// refused. A command that failed ends the request with an internal server
/// error, whose message is the handler's complaint about that command. Any
/// other reply is accepted, and leads to the next state or to the answer.
pub trait Handler: DeepView + Sized {
    /// What a request that succeeds is answered with.
    type Answer: DeepView;

    /// The command that a state waits for.
    spec fn pending(state: Self::V) -> CommandView;

    /// The message with which the request ends where the pending command of
    /// `state` failed with `err`.
    spec fn complaint(state: Self::V, err: Seq<char>) -> Seq<char>;

    /// What follows on a reply that fits the pending command and is not a
    /// failure of it.
    spec fn accepted(state: Self::V, reply: ReplyView) -> NextView<
        Self::V,
        <Self::Answer as DeepView>::V,
    >;

    /// The command to perform now.
    fn command(&self) -> (command: Command)
        ensures
            command.deep_view() == Self::pending(self.deep_view()),
    ;

    /// Takes the reply to the pending command.
    fn resume(self, reply: Reply) -> (next: Next<Self, Self::Answer>)
        ensures
            !fits(Self::pending(self.deep_view()), reply.deep_view()) ==> next.deep_view()
                == NextView::<Self::V, <Self::Answer as DeepView>::V>::OutOfTurn(
                self.deep_view(),
            ),
            reply matches Reply::Failed(err) ==> next.deep_view() == NextView::<
                Self::V,
                <Self::Answer as DeepView>::V,
            >::Respond(Err(internal_error(Self::complaint(self.deep_view(), err@)))),
            fits(Self::pending(self.deep_view()), reply.deep_view()) && !(reply is Failed)
                ==> next.deep_view() == Self::accepted(self.deep_view(), reply.deep_view()),
    ;
}

/// Goes on with the next command.
pub(crate) fn ask<S: DeepView, A: DeepView>(state: S) -> (next: Next<S, A>)
    ensures
        next.deep_view() == NextView::<S::V, A::V>::Ask(state.deep_view()),
{
    Next::Ask(state)
}

/// The answer to a request that succeeded.
pub(crate) fn respond<S: DeepView, A: DeepView>(answer: A) -> (next: Next<S, A>)
    ensures
        next.deep_view() == NextView::<S::V, A::V>::Respond(Ok(answer.deep_view())),
{
    Next::Respond(Ok(answer))
}

/// Refuses a reply.
pub(crate) fn out_of_turn<S: DeepView, A: DeepView>(state: S) -> (next: Next<S, A>)
    ensures
        next.deep_view() == NextView::<S::V, A::V>::OutOfTurn(state.deep_view()),
{
    Next::OutOfTurn(state)
}

/// The answer to a request that failed inside: a complaint, then the error.
pub(crate) fn fail<S: DeepView, A: DeepView>(complaint: &str, err: &str) -> (next: Next<S, A>)
    ensures
        next.deep_view() == NextView::<S::V, A::V>::Respond(
            Err(internal_error(complaint@ + err@)),
        ),
{
    let message = complaint.to_string().concat(err);
    Next::Respond(Err(Failure { status: Status::InternalServerError, message }))
}

/// The answer to a request that fails with this status and message.
pub(crate) fn refuse<S: DeepView, A: DeepView>(status: Status, message: String) -> (next: Next<
    S,
    A,
>)
    ensures
        next.deep_view() == NextView::<S::V, A::V>::Respond(
            Err(FailureView { status, message: message@ }),
        ),
{
    Next::Respond(Err(Failure { status, message }))
}

} // verus!
