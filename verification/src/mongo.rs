use mongodb::bson::oid::ObjectId;
use mongodb::bson::{Bson, Document};
use vstd::prelude::*;

use crate::dialogue::{internal_error, Failure, Status};

verus! {

/// The identifier that the document store gives to a document. The service
/// only carries it along.
#[verifier::external_type_specification]
#[verifier::external_body]
pub struct ExObjectId(ObjectId);

/// A query or an update in the form that the document store takes: fields in
/// the order in which they were inserted, no key twice.
#[verifier::external_type_specification]
#[verifier::external_body]
pub struct ExDocument(Document);

/// The value of one field of a document.
pub enum FieldView {
    Text(Seq<char>),
    Int(int),
    Texts(Seq<Seq<char>>),
    Nested(Seq<(Seq<char>, FieldView)>),
}

/// The fields of a document, in order.
pub type Fields = Seq<(Seq<char>, FieldView)>;

/// What a document holds.
pub uninterp spec fn document_fields(document: Document) -> Seq<(Seq<char>, FieldView)>;

/// Whether some field has this key.
pub open spec fn has_key(fields: Fields, key: Seq<char>) -> bool {
    exists|i: int| 0 <= i < fields.len() && (#[trigger] fields[i]).0 == key
}

/// A value to put into a document.
pub enum FieldValue {
    Text(String),
    Int(i32),
    Texts(Vec<String>),
    Nested(Document),
}

impl DeepView for FieldValue {
    type V = FieldView;

    open spec fn deep_view(&self) -> FieldView {
        match self {
            FieldValue::Text(text) => FieldView::Text(text@),
            FieldValue::Int(number) => FieldView::Int(*number as int),
            FieldValue::Texts(texts) => FieldView::Texts(texts.deep_view()),
            FieldValue::Nested(document) => FieldView::Nested(document_fields(*document)),
        }
    }
}

/// `Document::new`: a document without fields.
#[verifier::external_body]
fn empty_document() -> (document: Document)
    ensures
        document_fields(document) == Seq::<(Seq<char>, FieldView)>::empty(),
{
    Document::new()
}

/// `Document::insert`, for a key that the document does not have yet: the
/// field comes after those that were there, and they stay as they were.
/// Text becomes a BSON string, a number a 32-bit integer, a list of texts an
/// array of strings in the same order, a document an embedded document.
#[verifier::external_body]
fn insert(document: &mut Document, key: &str, value: FieldValue)
    requires
        !has_key(document_fields(*old(document)), key@),
    ensures
        document_fields(*final(document)) == document_fields(*old(document)).push(
            (key@, value.deep_view()),
        ),
{
    let value = match value {
        FieldValue::Text(text) => Bson::String(text),
        FieldValue::Int(number) => Bson::Int32(number),
        FieldValue::Texts(texts) => Bson::Array(texts.into_iter().map(Bson::String).collect()),
        FieldValue::Nested(nested) => Bson::Document(nested),
    };
    document.insert(key, value);
}

/// The document with a single field.
pub open spec fn field(key: Seq<char>, value: FieldView) -> Fields {
    seq![(key, value)]
}

/// The document that asks for a text in a field.
pub open spec fn text_field(key: Seq<char>, text: Seq<char>) -> Fields {
    field(key, FieldView::Text(text))
}

/// The update that applies `operator` with `value` to `key`.
pub open spec fn operation(operator: Seq<char>, key: Seq<char>, value: FieldView) -> Fields {
    field(operator, FieldView::Nested(field(key, value)))
}

/// A document with a single field.
pub(crate) fn single(key: &str, value: FieldValue) -> (document: Document)
    ensures
        document_fields(document) == field(key@, value.deep_view()),
{
    let mut document = empty_document();
    insert(&mut document, key, value);
    document
}

/// A filter that asks for the given text in one field.
pub(crate) fn match_one(key: &str, text: &str) -> (document: Document)
    ensures
        document_fields(document) == text_field(key@, text@),
{
    single(key, FieldValue::Text(text.to_string()))
}

/// A filter that asks for the given texts in two different fields.
pub(crate) fn match_two(key0: &str, text0: &str, key1: &str, text1: &str) -> (document: Document)
    requires
        key0@ != key1@,
    ensures
        document_fields(document) == text_field(key0@, text0@) + text_field(key1@, text1@),
{
    let mut document = match_one(key0, text0);
    insert(&mut document, key1, FieldValue::Text(text1.to_string()));
    document
}

/// A filter that asks for the given texts in three different fields.
pub(crate) fn match_three(
    key0: &str,
    text0: &str,
    key1: &str,
    text1: &str,
    key2: &str,
    text2: &str,
) -> (document: Document)
    requires
        key0@ != key1@,
        key0@ != key2@,
        key1@ != key2@,
    ensures
        document_fields(document) == text_field(key0@, text0@) + text_field(key1@, text1@)
            + text_field(key2@, text2@),
{
    let mut document = match_two(key0, text0, key1, text1);
    insert(&mut document, key2, FieldValue::Text(text2.to_string()));
    document
}

/// An update that applies one operator to one field.
pub(crate) fn update(operator: &str, key: &str, value: FieldValue) -> (document: Document)
    ensures
        document_fields(document) == operation(operator@, key@, value.deep_view()),
{
    single(operator, FieldValue::Nested(single(key, value)))
}

/// An index on a collection.
#[derive(Debug)]
pub struct Index {
    pub collection: &'static str,
    pub keys: Document,
    pub unique: bool,
}

/// The mathematical content of an [`Index`].
pub struct IndexView {
    pub collection: Seq<char>,
    pub keys: Fields,
    pub unique: bool,
}

impl DeepView for Index {
    type V = IndexView;

    open spec fn deep_view(&self) -> IndexView {
        IndexView {
            collection: self.collection@,
            keys: document_fields(self.keys),
            unique: self.unique,
        }
    }
}

/// The key of an index that sorts by one field, upwards.
pub open spec fn ascending(key: Seq<char>) -> Fields {
    field(key, FieldView::Int(1))
}

/// The indexes that the service needs: no two users of one name, and no two
/// posts of one title and `username`.
pub open spec fn needed_indexes() -> Seq<IndexView> {
    seq![
        IndexView { collection: "user"@, keys: ascending("name"@), unique: true },
        IndexView {
            collection: "post"@,
            keys: ascending("title"@) + ascending("username"@),
            unique: true,
        },
    ]
}

/// The indexes that the service needs. Where one cannot be created, the
/// service does not start.
pub fn index_mongo() -> (indexes: Vec<Index>)
    ensures
        indexes.deep_view() == needed_indexes(),
        indexes@.len() == 2,
        indexes@[0].collection@ == "user"@,
        document_fields(indexes@[0].keys) == seq![("name"@, FieldView::Int(1))],
        indexes@[0].unique,
        indexes@[1].collection@ == "post"@,
        document_fields(indexes@[1].keys) == seq![
            ("title"@, FieldView::Int(1)),
            ("username"@, FieldView::Int(1)),
        ],
        indexes@[1].unique,
{
    proof {
        reveal_strlit("title");
        reveal_strlit("username");
        assert("title"@.len() != "username"@.len());
    }
    let mut post_keys = single("title", FieldValue::Int(1));
    insert(&mut post_keys, "username", FieldValue::Int(1));
    assert(document_fields(post_keys) =~= ascending("title"@) + ascending("username"@));
    let by_name = Index {
        collection: "user",
        keys: single("name", FieldValue::Int(1)),
        unique: true,
    };
    let by_title = Index { collection: "post", keys: post_keys, unique: true };
    let mut indexes: Vec<Index> = Vec::new();
    indexes.push(by_name);
    indexes.push(by_title);
    assert(indexes.deep_view() =~= seq![by_name.deep_view(), by_title.deep_view()]);
    indexes
}

/// What to create before the service starts: the indexes that it needs. Where
/// the document store has no default database to create them in, nothing is
/// created, and that is the error.
pub fn start_indexing(has_default_database: bool) -> (plan: Result<Vec<Index>, String>)
    ensures
        has_default_database ==> (plan matches Ok(indexes) && indexes.deep_view()
            == needed_indexes()),
        !has_default_database ==> (plan matches Err(text) && text@ == "no default database"@),
{
    if has_default_database {
        Ok(index_mongo())
    } else {
        Err("no default database".to_string())
    }
}

/// What came of creating the indexes: success if every creation succeeded,
/// else the error of the first one that failed.
pub fn finish_indexing<E>(created: Vec<Result<(), E>>) -> (outcome: Result<(), E>)
    ensures
        outcome is Ok <==> forall|i: int| 0 <= i < created@.len() ==> #[trigger] created@[i] is Ok,
        outcome is Err ==> exists|i: int|
            0 <= i < created@.len() && #[trigger] created@[i] == outcome && forall|j: int|
                0 <= j < i ==> #[trigger] created@[j] is Ok,
{
    let ghost all = created@;
    let mut left = created;
    let mut outcome: Result<(), E> = Ok(());
    while left.len() > 0
        invariant
            left@ == all.take(left@.len() as int),
            left@.len() <= all.len(),
            outcome is Ok <==> forall|i: int|
                left@.len() <= i < all.len() ==> #[trigger] all[i] is Ok,
            outcome is Err ==> exists|i: int|
                left@.len() <= i < all.len() && #[trigger] all[i] == outcome && forall|j: int|
                    left@.len() <= j < i ==> #[trigger] all[j] is Ok,
        decreases left.len(),
    {
        let ghost number = left@.len() - 1;
        if let Some(result) = left.pop() {
            assert(result == all[number]);
            if result.is_err() {
                outcome = result;
            }
        }
        assert(left@ =~= all.take(number));
    }
    outcome
}

/// The answer to a request where the document store has no default database.
pub fn no_default_database() -> (failure: Failure)
    ensures
        failure.deep_view() == internal_error("No default database specified"@),
        failure.status is InternalServerError,
        failure.message@ == "No default database specified"@,
{
    Failure {
        status: Status::InternalServerError,
        message: "No default database specified".to_string(),
    }
}

} // verus!
