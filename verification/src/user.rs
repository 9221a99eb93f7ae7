use mongodb::bson::oid::ObjectId;
use time::Date;
use vstd::prelude::*;

use crate::clock::today;
use crate::dialogue::{
    ask, fail, internal_error, out_of_turn, refuse, respond, CacheValue, CacheValueView, Command,
    CommandView, FailureView, Handler, Kind, Next, NextView, Record, RecordView, Reply,
    ReplyView, Status,
};
use crate::mongo::{match_one, text_field};
use crate::redis::{described_fault, detailed, detailed_fault, Fault, FaultKind, FaultView};

verus! {

/// What a client sends to register.
#[derive(Debug, Clone)]
pub struct NewUser {
    pub name: String,
    pub username: String,
    pub email: String,
    pub password: String,
}

/// A registered user.
#[derive(Debug)]
pub struct User {
    pub name: String,
    pub username: String,
    pub password: String,
    pub email: String,
    pub date_of_creation: Date,
    /// The usernames of those who follow the user.
    pub followers: Vec<String>,
    /// The usernames of those whom the user follows.
    pub following: Vec<String>,
    /// The titles of the user's posts.
    pub posts: Vec<String>,
    /// Author and title of each post that the user likes.
    pub likes_posts: Vec<(String, String)>,
    /// Author and title of the post, and the identifier of the comment, of
    /// each comment that the user likes.
    pub likes_comments: Vec<(String, String, ObjectId)>,
}

/// The mathematical content of a [`User`].
pub struct UserView {
    pub name: Seq<char>,
    pub username: Seq<char>,
    pub password: Seq<char>,
    pub email: Seq<char>,
    pub date_of_creation: Date,
    pub followers: Seq<Seq<char>>,
    pub following: Seq<Seq<char>>,
    pub posts: Seq<Seq<char>>,
    pub likes_posts: Seq<(Seq<char>, Seq<char>)>,
    pub likes_comments: Seq<(Seq<char>, Seq<char>, ObjectId)>,
}

/// The content of a list of liked comments.
pub open spec fn liked_comments(
    likes: Seq<(String, String, ObjectId)>,
) -> Seq<(Seq<char>, Seq<char>, ObjectId)> {
    Seq::new(likes.len(), |i: int| (likes[i].0@, likes[i].1@, likes[i].2))
}

impl DeepView for User {
    type V = UserView;

    open spec fn deep_view(&self) -> UserView {
        UserView {
            name: self.name@,
            username: self.username@,
            password: self.password@,
            email: self.email@,
            date_of_creation: self.date_of_creation,
            followers: self.followers.deep_view(),
            following: self.following.deep_view(),
            posts: self.posts.deep_view(),
            likes_posts: self.likes_posts.deep_view(),
            likes_comments: liked_comments(self.likes_comments@),
        }
    }
}

impl UserView {
    /// The user that a registration creates: what the client sent, the date,
    /// and nothing else yet.
    pub open spec fn registered(
        name: Seq<char>,
        username: Seq<char>,
        email: Seq<char>,
        password: Seq<char>,
        date: Date,
    ) -> UserView {
        UserView {
            name,
            username,
            password,
            email,
            date_of_creation: date,
            followers: Seq::empty(),
            following: Seq::empty(),
            posts: Seq::empty(),
            likes_posts: Seq::empty(),
            likes_comments: Seq::empty(),
        }
    }
}

/// A copy of a list of texts.
pub(crate) fn copy_texts(texts: &Vec<String>) -> (copy: Vec<String>)
    ensures
        copy.deep_view() == texts.deep_view(),
{
    let copy = texts.clone();
    assert(copy.deep_view() =~= texts.deep_view());
    copy
}

/// A copy of a list of liked posts.
fn copy_liked_posts(likes: &Vec<(String, String)>) -> (copy: Vec<(String, String)>)
    ensures
        copy.deep_view() == likes.deep_view(),
{
    let mut copy: Vec<(String, String)> = Vec::new();
    for i in 0..likes.len()
        invariant
            copy@.len() == i,
            forall|j: int|
                0 <= j < i ==> (#[trigger] copy@[j]).deep_view() == likes@[j].deep_view(),
    {
        copy.push((likes[i].0.clone(), likes[i].1.clone()));
    }
    assert(copy.deep_view() =~= likes.deep_view());
    copy
}

/// A copy of a list of liked comments.
fn copy_liked_comments(likes: &Vec<(String, String, ObjectId)>) -> (copy: Vec<
    (String, String, ObjectId),
>)
    ensures
        liked_comments(copy@) == liked_comments(likes@),
{
    let mut copy: Vec<(String, String, ObjectId)> = Vec::new();
    for i in 0..likes.len()
        invariant
            copy@.len() == i,
            forall|j: int| 0 <= j < i ==> (#[trigger] copy@[j]).0@ == likes@[j].0@,
            forall|j: int| 0 <= j < i ==> (#[trigger] copy@[j]).1@ == likes@[j].1@,
            forall|j: int| 0 <= j < i ==> (#[trigger] copy@[j]).2 == likes@[j].2,
    {
        copy.push((likes[i].0.clone(), likes[i].1.clone(), likes[i].2));
    }
    assert(liked_comments(copy@) =~= liked_comments(likes@));
    copy
}

impl Clone for User {
    fn clone(&self) -> (copy: User)
        ensures
            copy.deep_view() == self.deep_view(),
    {
        User {
            name: self.name.clone(),
            username: self.username.clone(),
            password: self.password.clone(),
            email: self.email.clone(),
            date_of_creation: self.date_of_creation,
            followers: copy_texts(&self.followers),
            following: copy_texts(&self.following),
            posts: copy_texts(&self.posts),
            likes_posts: copy_liked_posts(&self.likes_posts),
            likes_comments: copy_liked_comments(&self.likes_comments),
        }
    }
}

impl User {
    /// The user that a registration on `date` creates.
    pub fn register(new_user: NewUser, date: Date) -> (user: User)
        ensures
            user.deep_view() == UserView::registered(
                new_user.name@,
                new_user.username@,
                new_user.email@,
                new_user.password@,
                date,
            ),
            user.name@ == new_user.name@,
            user.username@ == new_user.username@,
            user.email@ == new_user.email@,
            user.password@ == new_user.password@,
            user.date_of_creation == date,
            user.followers@.len() == 0,
            user.following@.len() == 0,
            user.posts@.len() == 0,
            user.likes_posts@.len() == 0,
            user.likes_comments@.len() == 0,
    {
        let user = User {
            name: new_user.name,
            username: new_user.username,
            email: new_user.email,
            password: new_user.password,
            date_of_creation: date,
            posts: Vec::new(),
            followers: Vec::new(),
            following: Vec::new(),
            likes_posts: Vec::new(),
            likes_comments: Vec::new(),
        };
        assert(user.followers.deep_view() =~= Seq::empty());
        assert(user.following.deep_view() =~= Seq::empty());
        assert(user.posts.deep_view() =~= Seq::empty());
        assert(user.likes_posts.deep_view() =~= Seq::empty());
        assert(liked_comments(user.likes_comments@) =~= Seq::empty());
        user
    }
}

/// The fault of a cached value that is no user because of its type.
pub open spec fn not_a_user() -> Seq<char> {
    "incorrect type to turn into User"@
}

/// The fault of cached bytes that cannot be decoded as a user.
pub open spec fn undecodable_user(err: Seq<char>) -> Seq<char> {
    detailed("failed to parse redis bytes into a User"@, err)
}

impl User {
    /// The JSON of the user that a cached value holds, or what is wrong with
    /// the value.
    pub fn from_redis_value(value: CacheValue) -> (json: Result<Vec<u8>, Fault>)
        ensures
            value matches CacheValue::Data(bytes) ==> json == Ok::<Vec<u8>, Fault>(bytes),
            !(value is Data) ==> (json matches Err(fault) && fault.deep_view() == (FaultView {
                kind: FaultKind::TypeError,
                text: not_a_user(),
            })),
            !(value is Data) ==> (json matches Err(fault) && fault.kind == FaultKind::TypeError
                && fault.text@ == "incorrect type to turn into User"@),
    {
        match value {
            CacheValue::Data(bytes) => Ok(bytes),
            _ => Err(described_fault(FaultKind::TypeError, "incorrect type to turn into User")),
        }
    }

    /// What is wrong with cached bytes that cannot be decoded as a user.
    pub fn undecodable(err: String) -> (fault: Fault)
        ensures
            fault.deep_view() == (FaultView {
                kind: FaultKind::TypeError,
                text: undecodable_user(err@),
            }),
            fault.kind == FaultKind::TypeError,
            fault.text@ == "failed to parse redis bytes into a User"@ + ": "@ + err@,
    {
        detailed_fault(FaultKind::TypeError, "failed to parse redis bytes into a User", err)
    }
}

/// Registers a user: stores the record.
#[derive(Debug)]
pub enum PostNewUser {
    Insert { user: User },
}

/// The mathematical content of a [`PostNewUser`].
pub enum PostNewUserView {
    Insert { user: UserView },
}

impl DeepView for PostNewUser {
    type V = PostNewUserView;

    open spec fn deep_view(&self) -> PostNewUserView {
        match self {
            PostNewUser::Insert { user } => PostNewUserView::Insert {
                user: user.deep_view(),
            },
        }
    }
}

impl PostNewUser {
    /// Starts to register a user on `date`.
    pub fn begin(new_user: NewUser, date: Date) -> (handler: PostNewUser)
        ensures
            handler.deep_view() == (PostNewUserView::Insert {
                user: UserView::registered(
                    new_user.name@,
                    new_user.username@,
                    new_user.email@,
                    new_user.password@,
                    date,
                ),
            }),
            handler matches PostNewUser::Insert { user } && {
                &&& user.name@ == new_user.name@
                &&& user.username@ == new_user.username@
                &&& user.email@ == new_user.email@
                &&& user.password@ == new_user.password@
                &&& user.date_of_creation == date
            },
    {
        PostNewUser::Insert { user: User::register(new_user, date) }
    }
}

impl Handler for PostNewUser {
    type Answer = User;

    open spec fn pending(state: PostNewUserView) -> CommandView {
        match state {
            PostNewUserView::Insert { user } => CommandView::Insert {
                collection: "user"@,
                record: RecordView::User(user),
            },
        }
    }

    open spec fn complaint(state: PostNewUserView, err: Seq<char>) -> Seq<char> {
        "failed to insert user: "@ + err
    }

    open spec fn accepted(state: PostNewUserView, reply: ReplyView) -> NextView<
        PostNewUserView,
        UserView,
    > {
        match (state, reply) {
            (PostNewUserView::Insert { .. }, ReplyView::NotEncoded(err)) => NextView::Respond(
                Err(internal_error("failed to insert user: "@ + err)),
            ),
            (PostNewUserView::Insert { user }, _) => NextView::Respond(Ok(user)),
        }
    }

    fn command(&self) -> Command {
        match self {
            PostNewUser::Insert { user } => Command::Insert {
                collection: "user",
                record: Record::User(user.clone()),
            },
        }
    }

    fn resume(self, reply: Reply) -> (next: Next<PostNewUser, User>) {
        match (self, reply) {
            (PostNewUser::Insert { .. }, Reply::Failed(err)) => fail(
                "failed to insert user: ",
                err.as_str(),
            ),
            (PostNewUser::Insert { .. }, Reply::NotEncoded(err)) => fail(
                "failed to insert user: ",
                err.as_str(),
            ),
            (PostNewUser::Insert { user }, Reply::Done) => respond(user),
            (state, _) => out_of_turn(state),
        }
    }
}

/// Starts to register a user today.
pub fn post_new_user(new_user: NewUser) -> (handler: PostNewUser)
    ensures
        exists|date: Date|
            handler.deep_view() == (PostNewUserView::Insert {
                user: #[trigger] UserView::registered(
                    new_user.name@,
                    new_user.username@,
                    new_user.email@,
                    new_user.password@,
                    date,
                ),
            }),
{
    PostNewUser::begin(new_user, today())
}

/// Looks up a user: in the cache, and where it does not have the user, in the
/// document store; then the cache gets the user.
#[derive(Debug)]
pub enum GetUser {
    CacheGet { username: String },
    Decode { json: Vec<u8> },
    Find { username: String },
    Encode { username: String, user: User },
    CacheSet { username: String, user: User, json: Vec<u8> },
}

/// The mathematical content of a [`GetUser`].
pub enum GetUserView {
    CacheGet { username: Seq<char> },
    Decode { json: Seq<u8> },
    Find { username: Seq<char> },
    Encode { username: Seq<char>, user: UserView },
    CacheSet { username: Seq<char>, user: UserView, json: Seq<u8> },
}

impl DeepView for GetUser {
    type V = GetUserView;

    open spec fn deep_view(&self) -> GetUserView {
        match self {
            GetUser::CacheGet { username } => GetUserView::CacheGet {
                username: username@,
            },
            GetUser::Decode { json } => GetUserView::Decode {
                json: json@,
            },
            GetUser::Find { username } => GetUserView::Find {
                username: username@,
            },
            GetUser::Encode { username, user } => GetUserView::Encode {
                username: username@,
                user: user.deep_view(),
            },
            GetUser::CacheSet { username, user, json } => GetUserView::CacheSet {
                username: username@,
                user: user.deep_view(),
                json: json@,
            },
        }
    }
}

/// The command that looks a user up in the cache.
pub open spec fn user_in_cache(username: Seq<char>) -> CommandView {
    CommandView::CacheGet { key: username }
}

/// The command that looks a user up in the document store.
pub open spec fn user_in_store(username: Seq<char>) -> CommandView {
    CommandView::FindOne {
        kind: Kind::User,
        collection: "user"@,
        filter: text_field("username"@, username),
    }
}

/// The command that looks a user up in the cache.
fn redis_fetch_user_by_name(username: &String) -> (command: Command)
    ensures
        command.deep_view() == user_in_cache(username@),
{
    Command::CacheGet { key: username.clone() }
}

/// The command that looks a user up in the document store.
fn mongo_get_user_by_username(username: &String) -> (command: Command)
    ensures
        command.deep_view() == user_in_store(username@),
{
    Command::FindOne {
        kind: Kind::User,
        collection: "user",
        filter: match_one("username", username.as_str()),
    }
}

impl Handler for GetUser {
    type Answer = User;

    open spec fn pending(state: GetUserView) -> CommandView {
        match state {
            GetUserView::CacheGet { username } => user_in_cache(username),
            GetUserView::Decode { json } => CommandView::DecodeJson {
                kind: Kind::User,
                bytes: json,
            },
            GetUserView::Find { username } => user_in_store(username),
            GetUserView::Encode { user, .. } => CommandView::EncodeJson {
                record: RecordView::User(user),
            },
            GetUserView::CacheSet { username, json, .. } => CommandView::CacheSet {
                key: username,
                value: json,
            },
        }
    }

    open spec fn complaint(state: GetUserView, err: Seq<char>) -> Seq<char> {
        match state {
            GetUserView::CacheGet { .. } => "failed to fetch user from redis: "@ + err,
            GetUserView::Decode { .. } => "failed to fetch user from redis: "@
                + undecodable_user(err),
            GetUserView::Find { .. } => "failed to find user: "@ + err,
            GetUserView::Encode { .. } => "failed to serialize user: "@ + err,
            GetUserView::CacheSet { .. } => "failed to insert user into redis cache: "@ + err,
        }
    }

    open spec fn accepted(state: GetUserView, reply: ReplyView) -> NextView<
        GetUserView,
        UserView,
    > {
        match (state, reply) {
            (GetUserView::CacheGet { username }, ReplyView::Cached(value)) => match value {
                CacheValueView::Nil => NextView::Ask(GetUserView::Find { username }),
                CacheValueView::Data(json) => NextView::Ask(GetUserView::Decode { json }),
                CacheValueView::Other => NextView::Respond(
                    Err(internal_error("failed to fetch user from redis: "@ + not_a_user())),
                ),
            },
            (GetUserView::Decode { .. }, ReplyView::Decoded(RecordView::User(user))) =>
                NextView::Respond(Ok(user)),
            (GetUserView::Find { username }, ReplyView::Found(Some(RecordView::User(user)))) =>
                NextView::Ask(GetUserView::Encode { username, user }),
            (GetUserView::Find { username }, _) => NextView::Respond(
                Err(
                    FailureView {
                        status: Status::BadRequest,
                        message: "user "@ + username + " not found"@,
                    },
                ),
            ),
            (GetUserView::Encode { username, user }, ReplyView::Encoded(json)) =>
                NextView::Ask(GetUserView::CacheSet { username, user, json }),
            (GetUserView::CacheSet { user, .. }, _) => NextView::Respond(Ok(user)),
            (state, _) => NextView::OutOfTurn(state),
        }
    }

    fn command(&self) -> Command {
        match self {
            GetUser::CacheGet { username } => redis_fetch_user_by_name(username),
            GetUser::Decode { json } => Command::DecodeJson {
                kind: Kind::User,
                bytes: json.clone(),
            },
            GetUser::Find { username } => mongo_get_user_by_username(username),
            GetUser::Encode { user, .. } => Command::EncodeJson {
                record: Record::User(user.clone()),
            },
            GetUser::CacheSet { username, json, .. } => Command::CacheSet {
                key: username.clone(),
                value: json.clone(),
            },
        }
    }

    fn resume(self, reply: Reply) -> (next: Next<GetUser, User>) {
        match (self, reply) {
            (GetUser::CacheGet { .. }, Reply::Failed(err)) => fail(
                "failed to fetch user from redis: ",
                err.as_str(),
            ),
            (GetUser::CacheGet { username }, Reply::Cached(CacheValue::Nil)) => ask(
                GetUser::Find { username },
            ),
            (GetUser::CacheGet { .. }, Reply::Cached(value)) => match User::from_redis_value(
                value,
            ) {
                Ok(json) => ask(GetUser::Decode { json }),
                Err(fault) => fail("failed to fetch user from redis: ", fault.text.as_str()),
            },
            (GetUser::Decode { .. }, Reply::Failed(err)) => fail(
                "failed to fetch user from redis: ",
                User::undecodable(err).text.as_str(),
            ),
            (GetUser::Decode { .. }, Reply::Decoded(Record::User(user))) => respond(user),
            (GetUser::Find { .. }, Reply::Failed(err)) => fail(
                "failed to find user: ",
                err.as_str(),
            ),
            (GetUser::Find { username }, Reply::Found(None)) => refuse(
                Status::BadRequest,
                "user ".to_string().concat(username.as_str()).concat(" not found"),
            ),
            (GetUser::Find { username }, Reply::Found(Some(Record::User(user)))) => ask(
                GetUser::Encode { username, user },
            ),
            (GetUser::Encode { .. }, Reply::Failed(err)) => fail(
                "failed to serialize user: ",
                err.as_str(),
            ),
            (GetUser::Encode { username, user }, Reply::Encoded(json)) => ask(
                GetUser::CacheSet { username, user, json },
            ),
            (GetUser::CacheSet { .. }, Reply::Failed(err)) => fail(
                "failed to insert user into redis cache: ",
                err.as_str(),
            ),
            (GetUser::CacheSet { user, .. }, Reply::Done) => respond(user),
            (state, _) => out_of_turn(state),
        }
    }
}

/// Starts to look up a user.
pub fn get_user(username: String) -> (handler: GetUser)
    ensures
        handler.deep_view() == (GetUserView::CacheGet { username: username@ }),
{
    GetUser::CacheGet { username }
}

} // verus!
