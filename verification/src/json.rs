//! JSON documents: the tree that the bridge reads, and the parser and writer
//! that stand behind it.

use vstd::prelude::*;

verus! {

/// A JSON value, held as a tree of plain values. A number is held as the
/// decimal text that stands for it, the members of an object as a sequence.
/// A tree that was read from a text lists each key of an object once.
#[derive(Debug)]
pub enum Json {
    Null,
    Bool(bool),
    Number(String),
    String(String),
    Array(Vec<Json>),
    Object(Vec<Member>),
}

/// One member of an object: a key and what stands under it.
#[derive(Debug)]
pub struct Member {
    pub key: String,
    pub value: Json,
}

/// The mathematical content of a [`Member`].
pub struct MemberView {
    pub key: Seq<char>,
    pub value: JsonView,
}

/// The mathematical content of a [`Json`] tree.
pub enum JsonView {
    Null,
    Bool(bool),
    Number(Seq<char>),
    String(Seq<char>),
    Array(Seq<JsonView>),
    Object(Seq<MemberView>),
}

impl View for Json {
    type V = JsonView;

    open spec fn view(&self) -> JsonView
        decreases self,
    {
        match self {
            Json::Null => JsonView::Null,
            Json::Bool(b) => JsonView::Bool(*b),
            Json::Number(digits) => JsonView::Number(digits@),
            Json::String(text) => JsonView::String(text@),
            Json::Array(items) => JsonView::Array(
                Seq::new(
                    items@.len(),
                    |i: int|
                        if 0 <= i < items@.len() {
                            items@[i]@
                        } else {
                            JsonView::Null
                        },
                ),
            ),
            Json::Object(members) => JsonView::Object(
                Seq::new(
                    members@.len(),
                    |i: int|
                        if 0 <= i < members@.len() {
                            MemberView { key: members@[i].key@, value: members@[i].value@ }
                        } else {
                            MemberView { key: Seq::empty(), value: JsonView::Null }
                        },
                ),
            ),
        }
    }
}

/// The members of an object, as its view holds them.
pub open spec fn members_view(members: Seq<Member>) -> Seq<MemberView> {
    Seq::new(
        members.len(),
        |i: int|
            if 0 <= i < members.len() {
                MemberView { key: members[i].key@, value: members[i].value@ }
            } else {
                MemberView { key: Seq::empty(), value: JsonView::Null }
            },
    )
}

/// The items of an array, as its view holds them.
pub open spec fn items_view(items: Seq<Json>) -> Seq<JsonView> {
    Seq::new(
        items.len(),
        |i: int|
            if 0 <= i < items.len() {
                items[i]@
            } else {
                JsonView::Null
            },
    )
}

/// The view of an object holds the views of its members, in their order.
pub proof fn lemma_object_view(members: Vec<Member>)
    ensures
        Json::Object(members)@ == JsonView::Object(members_view(members@)),
{
    assert(Json::Object(members)@ matches JsonView::Object(held) && held =~= members_view(
        members@,
    ));
}

/// The view of an array holds the views of its items, in their order.
pub proof fn lemma_array_view(items: Vec<Json>)
    ensures
        Json::Array(items)@ == JsonView::Array(items_view(items@)),
{
    assert(Json::Array(items)@ matches JsonView::Array(held) && held =~= items_view(items@));
}

/// The tree of the document that `serde_json::from_str` reads from a text,
/// or nothing where it reports that the text is no JSON.
pub uninterp spec fn json_document(text: Seq<char>) -> Option<JsonView>;

/// What a document of `serde_json` holds, as a tree.
pub uninterp spec fn json_tree(document: serde_json::Value) -> JsonView;

/// The text that `serde_json::to_string` writes for the document that holds
/// `tree`, or nothing where it reports an error.
pub uninterp spec fn json_written(tree: JsonView) -> Option<Seq<char>>;

/// The view of a tree that may be absent.
pub open spec fn json_view_of(tree: Option<&Json>) -> Option<JsonView> {
    match tree {
        Some(value) => Some(value@),
        None => None,
    }
}

/// A document of `serde_json`. Nothing of its content is visible here; the
/// tree of it is read through [`tree_of`].
#[verifier::external_type_specification]
#[verifier::external_body]
pub struct ExValue(serde_json::Value);

/// Calls `serde_json::from_str` for a `serde_json::Value`, and keeps the
/// document or the fact that there is none. The contract only names what the
/// document holds: it is a function of the text alone.
#[verifier::external_body]
pub(crate) fn parse_document(text: &str) -> (r: Option<serde_json::Value>)
    ensures
        match r {
            Some(document) => json_document(text@) == Some(json_tree(document)),
            None => json_document(text@) is None,
        },
{
    serde_json::from_str::<serde_json::Value>(text).ok()
}

/// Copies a document of `serde_json` into a tree, variant by variant: a
/// number as the text that its `Display` writes, the members of an object in
/// the order in which `Map::iter` hands them out. The contract only names the
/// tree: it is a function of the document alone.
#[verifier::external_body]
pub(crate) fn tree_of(document: &serde_json::Value) -> (tree: Json)
    ensures
        tree@ == json_tree(*document),
{
    match document {
        serde_json::Value::Null => Json::Null,
        serde_json::Value::Bool(b) => Json::Bool(*b),
        serde_json::Value::Number(n) => Json::Number(n.to_string()),
        serde_json::Value::String(s) => Json::String(s.clone()),
        serde_json::Value::Array(items) => Json::Array(items.iter().map(tree_of).collect()),
        serde_json::Value::Object(members) => Json::Object(
            members.iter().map(|(k, v)| Member { key: k.clone(), value: tree_of(v) }).collect(),
        ),
    }
}

/// Calls `serde_json::to_string` on a document, and keeps the text or the
/// fact that an error was reported. The contract only names the outcome: it
/// is a function of what the document holds, since the text is made of
/// nothing else.
#[verifier::external_body]
pub(crate) fn document_text(document: &serde_json::Value) -> (r: Option<String>)
    ensures
        match r {
            Some(text) => json_written(json_tree(*document)) == Some(text@),
            None => json_written(json_tree(*document)) is None,
        },
{
    serde_json::to_string(document).ok()
}

/// Reads a text as JSON. `None` where the text is no JSON.
pub fn parse_json(text: &str) -> (r: Option<Json>)
    ensures
        match r {
            Some(tree) => json_document(text@) == Some(tree@),
            None => json_document(text@) is None,
        },
{
    match parse_document(text) {
        Some(document) => Some(tree_of(&document)),
        None => None,
    }
}

} // verus!
