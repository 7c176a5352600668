//! From a raw message to what is delivered: the body, and the attributes
//! that the message carries about itself.

use vstd::prelude::*;
use crate::attributes::MessageAttributes;
use crate::json::{document_text, parse_document, tree_of};
use crate::json::{items_view, json_document, json_view_of, json_written, members_view};
use crate::json::{lemma_array_view, lemma_object_view, Json, JsonView, Member, MemberView};
use crate::digest::content_digest;
use crate::mode::{delivers, text_of, texts_of, Mode, SqsEvent, SqsRecordView};
use crate::mode::{MessageAttribute, MessageAttributeDataType, MessageAttributeView};
use crate::text::same_text;

verus! {

/// What an object holds under `key`. Where a key stands more than once, the
/// last one counts.
pub open spec fn member(members: Seq<MemberView>, key: Seq<char>) -> Option<JsonView>
    decreases members.len(),
{
    if members.len() == 0 {
        None
    } else if members.last().key == key {
        Some(members.last().value)
    } else {
        member(members.drop_last(), key)
    }
}

/// The data type that a name stands for.
pub open spec fn data_type_named(name: Seq<char>) -> Option<MessageAttributeDataType> {
    if name == "String"@ {
        Some(MessageAttributeDataType::String)
    } else if name == "Number"@ {
        Some(MessageAttributeDataType::Number)
    } else if name == "Binary"@ {
        Some(MessageAttributeDataType::Binary)
    } else {
        None
    }
}

/// The text of a JSON string; nothing for any other value.
pub open spec fn text_in(value: JsonView) -> Option<Seq<char>> {
    match value {
        JsonView::String(text) => Some(text),
        _ => None,
    }
}

/// The texts of a list of JSON strings; nothing where one of them is no string.
pub open spec fn texts_in(items: Seq<JsonView>) -> Option<Seq<Seq<char>>> {
    if forall|i: int| 0 <= i < items.len() ==> #[trigger] text_in(items[i]) is Some {
        Some(items.map_values(|item: JsonView| text_in(item).unwrap()))
    } else {
        None
    }
}

/// An optional text field: absent or `null` for none, a string for one.
/// The outer `None` says that the field holds something else.
pub open spec fn optional_text(field: Option<JsonView>) -> Option<Option<Seq<char>>> {
    match field {
        None => Some(None),
        Some(JsonView::Null) => Some(None),
        Some(JsonView::String(text)) => Some(Some(text)),
        Some(_) => None,
    }
}

/// An optional list field: absent or `null` for none, an array of strings for
/// one. The outer `None` says that the field holds something else.
pub open spec fn optional_texts(field: Option<JsonView>) -> Option<Option<Seq<Seq<char>>>> {
    match field {
        None => Some(None),
        Some(JsonView::Null) => Some(None),
        Some(JsonView::Array(items)) => match texts_in(items) {
            Some(texts) => Some(Some(texts)),
            None => None,
        },
        Some(_) => None,
    }
}

/// The attribute that a JSON value describes: an object whose `data_type` is
/// one of the three type names, and whose value fields, where present, hold
/// strings or lists of strings. Other members are passed over.
pub open spec fn attribute_of(value: JsonView) -> Option<MessageAttributeView> {
    match value {
        JsonView::Object(members) => match member(members, "data_type"@) {
            Some(JsonView::String(name)) => match (
                data_type_named(name),
                optional_texts(member(members, "binary_list_values"@)),
                optional_text(member(members, "binary_value"@)),
                optional_texts(member(members, "string_list_values"@)),
                optional_text(member(members, "string_value"@)),
            ) {
                (
                    Some(data_type),
                    Some(binary_list_values),
                    Some(binary_value),
                    Some(string_list_values),
                    Some(string_value),
                ) => Some(
                    MessageAttributeView {
                        data_type,
                        binary_list_values,
                        binary_value,
                        string_list_values,
                        string_value,
                    },
                ),
                _ => None,
            },
            _ => None,
        },
        _ => None,
    }
}

/// The attributes that the members of an object describe, by name; nothing
/// where one of them describes no attribute.
pub open spec fn attributes_of(members: Seq<MemberView>) -> Option<
    Map<Seq<char>, MessageAttributeView>,
>
    decreases members.len(),
{
    if members.len() == 0 {
        Some(Map::empty())
    } else {
        match (attributes_of(members.drop_last()), attribute_of(members.last().value)) {
            (Some(others), Some(attribute)) => Some(others.insert(members.last().key, attribute)),
            _ => None,
        }
    }
}

/// The attributes that a message carries: what its `message_attributes`
/// member describes, where the message is an object, has that member, and
/// every entry of it describes an attribute. None in any other case.
pub open spec fn message_attributes_of(tree: JsonView) -> Map<Seq<char>, MessageAttributeView> {
    match tree {
        JsonView::Object(members) => match member(members, "message_attributes"@) {
            Some(JsonView::Object(entries)) => match attributes_of(entries) {
                Some(attributes) => attributes,
                None => Map::empty(),
            },
            _ => Map::empty(),
        },
        _ => Map::empty(),
    }
}

/// Looks a key up among the members of an object; the last member under the
/// key counts.
pub fn find_member<'a>(members: &'a Vec<Member>, key: &str) -> (r: Option<&'a Json>)
    ensures
        match r {
            Some(value) => member(members_view(members@), key@) == Some(value@),
            None => member(members_view(members@), key@) is None,
        },
{
    let ghost all = members_view(members@);
    let mut i: usize = members.len();
    proof {
        assert(all.take(i as int) =~= all);
    }
    while i > 0
        invariant
            i <= members@.len(),
            all == members_view(members@),
            member(all, key@) == member(all.take(i as int), key@),
        decreases i,
    {
        proof {
            assert(all.take(i as int).drop_last() =~= all.take(i as int - 1));
            assert(all.take(i as int).last() == all[i as int - 1]);
        }
        i -= 1;
        if same_text(members[i].key.as_str(), key) {
            return Some(&members[i].value);
        }
    }
    None
}

/// Reads the name of a data type.
pub fn data_type_from_name(name: &str) -> (r: Option<MessageAttributeDataType>)
    ensures
        r == data_type_named(name@),
{
    if same_text(name, "String") {
        Some(MessageAttributeDataType::String)
    } else if same_text(name, "Number") {
        Some(MessageAttributeDataType::Number)
    } else if same_text(name, "Binary") {
        Some(MessageAttributeDataType::Binary)
    } else {
        None
    }
}

/// Reads a list of JSON strings.
fn strings_of(items: &Vec<Json>) -> (r: Option<Vec<String>>)
    ensures
        match r {
            Some(texts) => texts_in(items_view(items@)) == Some(
                texts@.map_values(|text: String| text@),
            ),
            None => texts_in(items_view(items@)) is None,
        },
{
    let ghost all = items_view(items@);
    let mut texts: Vec<String> = Vec::new();
    let mut i: usize = 0;
    while i < items.len()
        invariant
            i <= items@.len(),
            all == items_view(items@),
            texts@.len() == i,
            forall|j: int| 0 <= j < i ==> text_in(#[trigger] all[j]) == Some(texts@[j]@),
        decreases items@.len() - i,
    {
        match &items[i] {
            Json::String(text) => {
                texts.push(text.clone());
            },
            _ => {
                proof {
                    assert(text_in(all[i as int]) is None);
                }
                return None;
            },
        }
        i += 1;
    }
    proof {
        assert(texts@.map_values(|text: String| text@) =~= all.map_values(
            |item: JsonView| text_in(item).unwrap(),
        ));
    }
    Some(texts)
}

/// Reads an optional text field. `Err` where the field holds neither a
/// string nor `null`.
fn read_optional_text(field: Option<&Json>) -> (r: Result<Option<String>, ()>)
    ensures
        match r {
            Ok(value) => optional_text(json_view_of(field)) == Some(text_of(value)),
            Err(_) => optional_text(json_view_of(field)) is None,
        },
{
    match field {
        None => Ok(None),
        Some(Json::Null) => Ok(None),
        Some(Json::String(text)) => Ok(Some(text.clone())),
        Some(_) => Err(()),
    }
}

/// Reads an optional list field. `Err` where the field holds neither an
/// array of strings nor `null`.
fn read_optional_texts(field: Option<&Json>) -> (r: Result<Option<Vec<String>>, ()>)
    ensures
        match r {
            Ok(value) => optional_texts(json_view_of(field)) == Some(texts_of(value)),
            Err(_) => optional_texts(json_view_of(field)) is None,
        },
{
    match field {
        None => Ok(None),
        Some(Json::Null) => Ok(None),
        Some(Json::Array(items)) => match strings_of(items) {
            Some(texts) => {
                proof {
                    lemma_array_view(*items);
                }
                Ok(Some(texts))
            },
            None => {
                proof {
                    lemma_array_view(*items);
                }
                Err(())
            },
        },
        Some(_) => Err(()),
    }
}

/// Reads one attribute. `None` where the value does not describe one.
pub fn decode_attribute(value: &Json) -> (r: Option<MessageAttribute>)
    ensures
        match r {
            Some(attribute) => attribute_of(value@) == Some(attribute@),
            None => attribute_of(value@) is None,
        },
{
    let members = match value {
        Json::Object(members) => members,
        _ => {
            return None;
        },
    };
    proof {
        lemma_object_view(*members);
    }
    let data_type = match find_member(members, "data_type") {
        Some(Json::String(name)) => match data_type_from_name(name.as_str()) {
            Some(data_type) => data_type,
            None => {
                return None;
            },
        },
        _ => {
            return None;
        },
    };
    let binary_list_values = match read_optional_texts(find_member(members, "binary_list_values")) {
        Ok(value) => value,
        Err(_) => {
            return None;
        },
    };
    let binary_value = match read_optional_text(find_member(members, "binary_value")) {
        Ok(value) => value,
        Err(_) => {
            return None;
        },
    };
    let string_list_values = match read_optional_texts(find_member(members, "string_list_values")) {
        Ok(value) => value,
        Err(_) => {
            return None;
        },
    };
    let string_value = match read_optional_text(find_member(members, "string_value")) {
        Ok(value) => value,
        Err(_) => {
            return None;
        },
    };
    Some(
        MessageAttribute {
            data_type,
            binary_list_values,
            binary_value,
            string_list_values,
            string_value,
        },
    )
}

/// Reads the attributes that the members of an object describe. `None` where
/// one of the members describes no attribute.
pub fn decode_attributes(members: &Vec<Member>) -> (r: Option<MessageAttributes>)
    ensures
        match r {
            Some(attributes) => attributes_of(members_view(members@)) == Some(attributes@),
            None => attributes_of(members_view(members@)) is None,
        },
{
    let ghost all = members_view(members@);
    let mut attributes = MessageAttributes::new();
    let mut i: usize = 0;
    while i < members.len()
        invariant
            i <= members@.len(),
            all == members_view(members@),
            attributes_of(all.take(i as int)) == Some(attributes@),
        decreases members@.len() - i,
    {
        proof {
            assert(all.take(i as int + 1).drop_last() =~= all.take(i as int));
            assert(all.take(i as int + 1).last() == all[i as int]);
        }
        match decode_attribute(&members[i].value) {
            Some(attribute) => {
                attributes.insert(members[i].key.clone(), attribute);
            },
            None => {
                proof {
                    lemma_attributes_need_every_member(all, i as int + 1);
                }
                return None;
            },
        }
        i += 1;
    }
    proof {
        assert(all.take(i as int) =~= all);
    }
    Some(attributes)
}

/// Where the first `n` members describe no attributes, the whole does not.
pub proof fn lemma_attributes_need_every_member(members: Seq<MemberView>, n: int)
    requires
        0 <= n <= members.len(),
        attributes_of(members.take(n)) is None,
    ensures
        attributes_of(members) is None,
    decreases members.len() - n,
{
    if n == members.len() {
        assert(members.take(n) =~= members);
    } else {
        assert(members.take(n + 1).drop_last() =~= members.take(n));
        lemma_attributes_need_every_member(members, n + 1);
    }
}

/// The attributes that a message carries, read from its tree.
pub fn message_attributes(tree: &Json) -> (r: MessageAttributes)
    ensures
        r@ == message_attributes_of(tree@),
{
    match tree {
        Json::Object(members) => {
            proof {
                lemma_object_view(*members);
            }
            match find_member(members, "message_attributes") {
                Some(Json::Object(entries)) => {
                    proof {
                        lemma_object_view(*entries);
                    }
                    match decode_attributes(entries) {
                        Some(attributes) => attributes,
                        None => MessageAttributes::new(),
                    }
                },
                _ => MessageAttributes::new(),
            }
        },
        _ => MessageAttributes::new(),
    }
}

/// What is delivered for a message.
#[derive(Debug)]
pub struct Message {
    pub body: String,
    pub message_attributes: MessageAttributes,
}

/// The mathematical content of a [`Message`].
pub struct MessageView {
    pub body: Seq<char>,
    pub message_attributes: Map<Seq<char>, MessageAttributeView>,
}

impl View for Message {
    type V = MessageView;

    open spec fn view(&self) -> MessageView {
        MessageView { body: self.body@, message_attributes: self.message_attributes@ }
    }
}

/// What is delivered for the raw message `raw`, given the tree of the
/// document it holds and the text that this document is written as, where
/// there are such. A JSON object is delivered as that text, with the
/// attributes it carries; anything else is delivered as it came, with none.
pub open spec fn delivered(
    raw: Seq<char>,
    tree: Option<JsonView>,
    text: Option<Seq<char>>,
) -> MessageView {
    match (tree, text) {
        (Some(JsonView::Object(members)), Some(text)) => MessageView {
            body: text,
            message_attributes: message_attributes_of(JsonView::Object(members)),
        },
        _ => MessageView { body: raw, message_attributes: Map::empty() },
    }
}

/// What is delivered for the raw message `raw`.
pub open spec fn message_of(raw: Seq<char>) -> MessageView {
    match json_document(raw) {
        Some(tree) => delivered(raw, Some(tree), json_written(tree)),
        None => delivered(raw, None, None),
    }
}

/// Decides what is delivered for a raw message, from the tree of the document
/// it holds and the text that this document is written as.
pub fn message_from_parts(raw: &str, tree: Option<&Json>, text: Option<String>) -> (m: Message)
    ensures
        m@ == delivered(raw@, json_view_of(tree), text_of(text)),
{
    match (tree, text) {
        (Some(Json::Object(members)), Some(text)) => {
            proof {
                lemma_object_view(*members);
            }
            Message { body: text, message_attributes: message_attributes(tree.unwrap()) }
        },
        _ => Message { body: raw.to_owned(), message_attributes: MessageAttributes::new() },
    }
}

/// Reads a raw message: a JSON object is delivered as the document is
/// written again, with the attributes it carries; anything else as it came.
pub fn read_message(raw: &str) -> (m: Message)
    ensures
        m@ == message_of(raw@),
{
    match parse_document(raw) {
        None => message_from_parts(raw, None, None),
        Some(document) => {
            let tree = tree_of(&document);
            let text = match &tree {
                Json::Object(_) => document_text(&document),
                _ => None,
            };
            message_from_parts(raw, Some(&tree), text)
        },
    }
}

/// Builds the event that delivers a raw message in the given mode.
pub fn build_event(raw: &str, mode: Mode) -> (event: SqsEvent)
    ensures
        event@.len() == 1,
        delivers(event@[0], message_of(raw@).body, message_of(raw@).message_attributes),
{
    let message = read_message(raw);
    match mode {
        Mode::Sqs => SqsEvent::new(message.body.as_str(), message.message_attributes),
    }
}

/// The body and its digest depend on the raw message alone: two events for
/// the same raw message agree in both, and in all but their identifiers.
pub proof fn lemma_body_and_digest_are_determined(
    raw: Seq<char>,
    a: SqsRecordView,
    b: SqsRecordView,
)
    requires
        delivers(a, message_of(raw).body, message_of(raw).message_attributes),
        delivers(b, message_of(raw).body, message_of(raw).message_attributes),
    ensures
        a.body == message_of(raw).body,
        a.md5_of_body == content_digest(a.body),
        a.body == b.body,
        a.md5_of_body == b.md5_of_body,
        a.message_attributes == b.message_attributes,
{
}

} // verus!
