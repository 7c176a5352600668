//! The kinds of event that a message can be delivered as.

use vstd::prelude::*;
use crate::attributes::MessageAttributes;
use crate::digest::{content_digest, md5_hex};
use crate::ident::{is_identifier, new_identifier};
use crate::text::same_text;

verus! {

/// The kind of event handed to the lambda.
#[derive(Debug, Clone, Copy, PartialEq, Eq, Structural)]
pub enum Mode {
    /// A queue delivery with a single record.
    Sqs,
}

/// The mode that a name stands for, if any.
pub open spec fn mode_named(name: Seq<char>) -> Option<Mode> {
    if name == "sqs"@ {
        Some(Mode::Sqs)
    } else {
        None
    }
}

impl Mode {
    /// The name under which the mode is selected and shown.
    pub open spec fn spec_name(self) -> Seq<char> {
        match self {
            Mode::Sqs => "sqs"@,
        }
    }

    /// The name under which the mode is selected and shown.
    pub fn name(&self) -> (r: String)
        ensures
            r@ == self.spec_name(),
    {
        match self {
            Mode::Sqs => "sqs".to_owned(),
        }
    }

    /// The mode selected by `name`; `None` for a name that selects none.
    pub fn from_name(name: &str) -> (r: Option<Mode>)
        ensures
            r == mode_named(name@),
    {
        if same_text(name, "sqs") {
            Some(Mode::Sqs)
        } else {
            None
        }
    }
}

/// A queue delivery: a list of records, here always one.
#[derive(Debug)]
pub struct SqsEvent {
    pub records: Vec<SqsRecord>,
}

/// One delivered message.
#[derive(Debug)]
pub struct SqsRecord {
    pub message_id: String,
    pub receipt_handle: String,
    pub body: String,
    pub md5_of_body: String,
    pub event_source_arn: String,
    pub event_source: String,
    pub aws_region: String,
    pub attributes: SqsRecordAttributes,
    pub message_attributes: MessageAttributes,
}

/// What the queue says about how a record was received.
#[derive(Debug, Clone)]
pub struct SqsRecordAttributes {
    pub approximate_receive_count: String,
    pub sender_id: String,
    pub sent_timestamp: String,
    pub approximate_first_receive_timestamp: String,
}

/// The mathematical content of an [`SqsRecordAttributes`].
pub struct SqsRecordAttributesView {
    pub approximate_receive_count: Seq<char>,
    pub sender_id: Seq<char>,
    pub sent_timestamp: Seq<char>,
    pub approximate_first_receive_timestamp: Seq<char>,
}

/// The mathematical content of an [`SqsRecord`].
pub struct SqsRecordView {
    pub message_id: Seq<char>,
    pub receipt_handle: Seq<char>,
    pub body: Seq<char>,
    pub md5_of_body: Seq<char>,
    pub event_source_arn: Seq<char>,
    pub event_source: Seq<char>,
    pub aws_region: Seq<char>,
    pub attributes: SqsRecordAttributesView,
    pub message_attributes: Map<Seq<char>, MessageAttributeView>,
}

impl View for SqsRecordAttributes {
    type V = SqsRecordAttributesView;

    open spec fn view(&self) -> SqsRecordAttributesView {
        SqsRecordAttributesView {
            approximate_receive_count: self.approximate_receive_count@,
            sender_id: self.sender_id@,
            sent_timestamp: self.sent_timestamp@,
            approximate_first_receive_timestamp: self.approximate_first_receive_timestamp@,
        }
    }
}

impl View for SqsRecord {
    type V = SqsRecordView;

    open spec fn view(&self) -> SqsRecordView {
        SqsRecordView {
            message_id: self.message_id@,
            receipt_handle: self.receipt_handle@,
            body: self.body@,
            md5_of_body: self.md5_of_body@,
            event_source_arn: self.event_source_arn@,
            event_source: self.event_source@,
            aws_region: self.aws_region@,
            attributes: self.attributes@,
            message_attributes: self.message_attributes@,
        }
    }
}

impl View for SqsEvent {
    type V = Seq<SqsRecordView>;

    open spec fn view(&self) -> Seq<SqsRecordView> {
        self.records@.map_values(|record: SqsRecord| record@)
    }
}

/// The receive attributes that every record carries.
pub open spec fn default_attributes() -> SqsRecordAttributesView {
    SqsRecordAttributesView {
        approximate_receive_count: "0"@,
        sender_id: "sender"@,
        sent_timestamp: "1520621625029"@,
        approximate_first_receive_timestamp: "1520621634884"@,
    }
}

/// The record that delivers `body` with `message_attributes` under the two
/// identifiers: the digest is that of the body, and the source and the
/// receive attributes are the same for every record.
pub open spec fn record_of(
    message_id: Seq<char>,
    receipt_handle: Seq<char>,
    body: Seq<char>,
    message_attributes: Map<Seq<char>, MessageAttributeView>,
) -> SqsRecordView {
    SqsRecordView {
        message_id,
        receipt_handle,
        body,
        md5_of_body: content_digest(body),
        event_source_arn: "arn:aws:sqs:ap-northeast-1:123456789012:SQSQueue"@,
        event_source: "aws:sqs"@,
        aws_region: "ap-northeast-1"@,
        attributes: default_attributes(),
        message_attributes,
    }
}

/// Whether `record` delivers `body` with `message_attributes` under two
/// identifiers of the random form, with a digest of thirty-two digits.
pub open spec fn delivers(
    record: SqsRecordView,
    body: Seq<char>,
    message_attributes: Map<Seq<char>, MessageAttributeView>,
) -> bool {
    &&& record == record_of(record.message_id, record.receipt_handle, body, message_attributes)
    &&& record.md5_of_body.len() == 32
    &&& is_identifier(record.message_id)
    &&& is_identifier(record.receipt_handle)
}

impl Default for SqsRecordAttributes {
    fn default() -> (r: Self)
        ensures
            r@ == default_attributes(),
    {
        SqsRecordAttributes {
            approximate_receive_count: "0".to_owned(),
            sender_id: "sender".to_owned(),
            sent_timestamp: "1520621625029".to_owned(),
            approximate_first_receive_timestamp: "1520621634884".to_owned(),
        }
    }
}

impl SqsRecord {
    /// The record for `body` under the given identifiers.
    pub fn with_identifiers(
        message_id: String,
        receipt_handle: String,
        body: &str,
        message_attributes: MessageAttributes,
    ) -> (r: Self)
        ensures
            r@ == record_of(message_id@, receipt_handle@, body@, message_attributes@),
            r.md5_of_body@.len() == 32,
    {
        let md5_of_body = md5_hex(body);
        SqsRecord {
            message_id,
            receipt_handle,
            body: body.to_owned(),
            md5_of_body,
            event_source_arn: "arn:aws:sqs:ap-northeast-1:123456789012:SQSQueue".to_owned(),
            event_source: "aws:sqs".to_owned(),
            aws_region: "ap-northeast-1".to_owned(),
            attributes: SqsRecordAttributes::default(),
            message_attributes,
        }
    }

    /// The record for `body` under two fresh identifiers.
    pub fn new(body: &str, message_attributes: MessageAttributes) -> (r: Self)
        ensures
            delivers(r@, body@, message_attributes@),
    {
        let message_id = new_identifier();
        let receipt_handle = new_identifier();
        SqsRecord::with_identifiers(message_id, receipt_handle, body, message_attributes)
    }
}

impl SqsEvent {
    /// The delivery of one message: a single record for `body`.
    pub fn new(body: &str, message_attributes: MessageAttributes) -> (r: Self)
        ensures
            r@.len() == 1,
            delivers(r@[0], body@, message_attributes@),
    {
        let mut records: Vec<SqsRecord> = Vec::new();
        records.push(SqsRecord::new(body, message_attributes));
        SqsEvent { records }
    }
}

/// The type of the value that a message attribute carries.
#[derive(Debug, Clone, Copy, PartialEq, Eq, Structural)]
pub enum MessageAttributeDataType {
    String,
    Number,
    Binary,
}

/// One attribute of a message: its type, and the value in whichever of the
/// four forms it was given.
#[derive(Debug, Clone)]
pub struct MessageAttribute {
    pub data_type: MessageAttributeDataType,
    pub binary_list_values: Option<Vec<String>>,
    pub binary_value: Option<String>,
    pub string_list_values: Option<Vec<String>>,
    pub string_value: Option<String>,
}

/// The mathematical content of a [`MessageAttribute`].
pub struct MessageAttributeView {
    pub data_type: MessageAttributeDataType,
    pub binary_list_values: Option<Seq<Seq<char>>>,
    pub binary_value: Option<Seq<char>>,
    pub string_list_values: Option<Seq<Seq<char>>>,
    pub string_value: Option<Seq<char>>,
}

/// The characters of an optional string.
pub open spec fn text_of(value: Option<String>) -> Option<Seq<char>> {
    match value {
        Some(text) => Some(text@),
        None => None,
    }
}

/// The characters of each string of an optional list.
pub open spec fn texts_of(values: Option<Vec<String>>) -> Option<Seq<Seq<char>>> {
    match values {
        Some(list) => Some(list@.map_values(|text: String| text@)),
        None => None,
    }
}

impl View for MessageAttribute {
    type V = MessageAttributeView;

    open spec fn view(&self) -> MessageAttributeView {
        MessageAttributeView {
            data_type: self.data_type,
            binary_list_values: texts_of(self.binary_list_values),
            binary_value: text_of(self.binary_value),
            string_list_values: texts_of(self.string_list_values),
            string_value: text_of(self.string_value),
        }
    }
}

/// Every mode is selected by its own name.
pub proof fn lemma_name_selects_mode(mode: Mode)
    ensures
        mode_named(mode.spec_name()) == Some(mode),
{
}

} // verus!
