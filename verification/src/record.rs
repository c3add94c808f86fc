//! The records that the service answers with, and how each is read from a
//! JSON document.
//!
//! Every record is read from a JSON object by the names of its fields. Members
//! that the record does not name are passed over. A document fits a record when
//! each field's rule accepts the member under the field's name. Where a body
//! gives a name twice, the object that `serde_json` reads from it has the
//! member that comes last.

use vstd::prelude::*;
use crate::json::{json_model, value_get, JsonModel};
use crate::member::{
    double_rule, flag_rule, integer_rule, member_of, text_rule, Double, Member,
};

verus! {

/// The string field under a key of a document, if the document has one.
pub open spec fn text_at(doc: JsonModel, key: Seq<char>) -> Option<Seq<char>> {
    text_rule(member_of(doc, key))
}

/// The flag under a key of a document, if what stands there fits a flag.
pub open spec fn flag_at(doc: JsonModel, key: Seq<char>) -> Option<Option<bool>> {
    flag_rule(member_of(doc, key))
}

/// The integer field under a key of a document, if the document has one.
pub open spec fn integer_at(doc: JsonModel, key: Seq<char>) -> Option<i64> {
    integer_rule(member_of(doc, key))
}

/// The real field under a key of a document, if the document has one.
pub open spec fn double_at(doc: JsonModel, key: Seq<char>) -> Option<Double> {
    double_rule(member_of(doc, key))
}

/// The JSON value of a flag: null where it is unset.
pub open spec fn flag_json(flag: Option<bool>) -> JsonModel {
    match flag {
        Some(b) => JsonModel::Bool(b),
        None => JsonModel::Null,
    }
}

/// Reads a string field of a document.
pub fn read_text(doc: &serde_json::Value, key: &str) -> (r: Option<String>)
    ensures
        match r {
            Some(s) => text_at(json_model(*doc), key@) == Some(s@),
            None => text_at(json_model(*doc), key@) is None,
        },
{
    Member::read(doc, key).into_text()
}

/// Reads a flag of a document.
pub fn read_flag(doc: &serde_json::Value, key: &str) -> (r: Option<Option<bool>>)
    ensures
        r == flag_at(json_model(*doc), key@),
{
    Member::read(doc, key).to_flag()
}

/// Reads an integer field of a document.
pub fn read_integer(doc: &serde_json::Value, key: &str) -> (r: Option<i64>)
    ensures
        r == integer_at(json_model(*doc), key@),
{
    Member::read(doc, key).to_integer()
}

/// Reads a real field of a document.
pub fn read_double(doc: &serde_json::Value, key: &str) -> (r: Option<Double>)
    ensures
        r == double_at(json_model(*doc), key@),
{
    Member::read(doc, key).to_double()
}

/// The answer of the disposable email check.
#[derive(Clone, Debug, PartialEq, Eq)]
pub struct DisposableEmailRecord {
    pub email_address: String,
    pub is_disposable: Option<bool>,
    pub credits_available: i64,
}

/// The mathematical value of a [`DisposableEmailRecord`].
pub ghost struct DisposableEmailRecordView {
    pub email_address: Seq<char>,
    pub is_disposable: Option<bool>,
    pub credits_available: i64,
}

impl View for DisposableEmailRecord {
    type V = DisposableEmailRecordView;

    open spec fn view(&self) -> DisposableEmailRecordView {
        DisposableEmailRecordView {
            email_address: self.email_address@,
            is_disposable: self.is_disposable,
            credits_available: self.credits_available,
        }
    }
}

impl DisposableEmailRecordView {
    /// The record that a document holds, if the document fits.
    pub open spec fn of_json(doc: JsonModel) -> Option<DisposableEmailRecordView> {
        let email_address = text_at(doc, "email_address"@);
        let is_disposable = flag_at(doc, "is_disposable"@);
        let credits_available = integer_at(doc, "credits_available"@);
        if email_address is Some && is_disposable is Some && credits_available is Some {
            Some(
                DisposableEmailRecordView {
                    email_address: email_address->0,
                    is_disposable: is_disposable->0,
                    credits_available: credits_available->0,
                },
            )
        } else {
            None
        }
    }

    /// The document that holds the record and nothing else.
    pub open spec fn to_json(self) -> JsonModel {
        JsonModel::Object(
            map![
                "email_address"@ => JsonModel::Text(self.email_address),
                "is_disposable"@ => flag_json(self.is_disposable),
                "credits_available"@ => JsonModel::Integer(self.credits_available as int),
            ],
        )
    }
}

impl DisposableEmailRecord {
    /// Reads the record from a document: `None` where the document does not fit.
    pub fn from_json(doc: &serde_json::Value) -> (r: Option<DisposableEmailRecord>)
        ensures
            match r {
                Some(record) => DisposableEmailRecordView::of_json(json_model(*doc)) == Some(
                    record@,
                ),
                None => DisposableEmailRecordView::of_json(json_model(*doc)) is None,
            },
    {
        let email_address = read_text(doc, "email_address")?;
        let is_disposable = read_flag(doc, "is_disposable")?;
        let credits_available = read_integer(doc, "credits_available")?;
        Some(DisposableEmailRecord { email_address, is_disposable, credits_available })
    }
}

/// The answer of the free email check.
#[derive(Clone, Debug, PartialEq, Eq)]
pub struct FreeEmailRecord {
    pub email_address: String,
    pub is_free: Option<bool>,
    pub credits_available: i64,
}

/// The mathematical value of a [`FreeEmailRecord`].
pub ghost struct FreeEmailRecordView {
    pub email_address: Seq<char>,
    pub is_free: Option<bool>,
    pub credits_available: i64,
}

impl View for FreeEmailRecord {
    type V = FreeEmailRecordView;

    open spec fn view(&self) -> FreeEmailRecordView {
        FreeEmailRecordView {
            email_address: self.email_address@,
            is_free: self.is_free,
            credits_available: self.credits_available,
        }
    }
}

impl FreeEmailRecordView {
    /// The record that a document holds, if the document fits.
    pub open spec fn of_json(doc: JsonModel) -> Option<FreeEmailRecordView> {
        let email_address = text_at(doc, "email_address"@);
        let is_free = flag_at(doc, "is_free"@);
        let credits_available = integer_at(doc, "credits_available"@);
        if email_address is Some && is_free is Some && credits_available is Some {
            Some(
                FreeEmailRecordView {
                    email_address: email_address->0,
                    is_free: is_free->0,
                    credits_available: credits_available->0,
                },
            )
        } else {
            None
        }
    }

    /// The document that holds the record and nothing else.
    pub open spec fn to_json(self) -> JsonModel {
        JsonModel::Object(
            map![
                "email_address"@ => JsonModel::Text(self.email_address),
                "is_free"@ => flag_json(self.is_free),
                "credits_available"@ => JsonModel::Integer(self.credits_available as int),
            ],
        )
    }
}

impl FreeEmailRecord {
    /// Reads the record from a document: `None` where the document does not fit.
    pub fn from_json(doc: &serde_json::Value) -> (r: Option<FreeEmailRecord>)
        ensures
            match r {
                Some(record) => FreeEmailRecordView::of_json(json_model(*doc)) == Some(record@),
                None => FreeEmailRecordView::of_json(json_model(*doc)) is None,
            },
    {
        let email_address = read_text(doc, "email_address")?;
        let is_free = read_flag(doc, "is_free")?;
        let credits_available = read_integer(doc, "credits_available")?;
        Some(FreeEmailRecord { email_address, is_free, credits_available })
    }
}

/// What the service says when it turns a request down.
#[derive(Clone, Debug, PartialEq, Eq)]
pub struct ErrorRecord1 {
    pub error_code: i64,
    pub error_message: String,
}

/// The mathematical value of an [`ErrorRecord1`].
pub ghost struct ErrorRecord1View {
    pub error_code: i64,
    pub error_message: Seq<char>,
}

impl View for ErrorRecord1 {
    type V = ErrorRecord1View;

    open spec fn view(&self) -> ErrorRecord1View {
        ErrorRecord1View { error_code: self.error_code, error_message: self.error_message@ }
    }
}

impl ErrorRecord1View {
    /// The record that a document holds, if the document fits.
    pub open spec fn of_json(doc: JsonModel) -> Option<ErrorRecord1View> {
        let error_code = integer_at(doc, "error_code"@);
        let error_message = text_at(doc, "error_message"@);
        if error_code is Some && error_message is Some {
            Some(ErrorRecord1View { error_code: error_code->0, error_message: error_message->0 })
        } else {
            None
        }
    }

    /// The document that holds the record and nothing else.
    pub open spec fn to_json(self) -> JsonModel {
        JsonModel::Object(
            map![
                "error_code"@ => JsonModel::Integer(self.error_code as int),
                "error_message"@ => JsonModel::Text(self.error_message),
            ],
        )
    }
}

impl ErrorRecord1 {
    /// Reads the record from a document: `None` where the document does not fit.
    pub fn from_json(doc: &serde_json::Value) -> (r: Option<ErrorRecord1>)
        ensures
            match r {
                Some(record) => ErrorRecord1View::of_json(json_model(*doc)) == Some(record@),
                None => ErrorRecord1View::of_json(json_model(*doc)) is None,
            },
    {
        let error_code = read_integer(doc, "error_code")?;
        let error_message = read_text(doc, "error_message")?;
        Some(ErrorRecord1 { error_code, error_message })
    }
}

/// The document of a request that the service turned down: what it says stands
/// under the key `error`.
#[derive(Clone, Debug, PartialEq, Eq)]
pub struct ErrorRecord {
    pub error: ErrorRecord1,
}

/// The mathematical value of an [`ErrorRecord`].
pub ghost struct ErrorRecordView {
    pub error: ErrorRecord1View,
}

impl View for ErrorRecord {
    type V = ErrorRecordView;

    open spec fn view(&self) -> ErrorRecordView {
        ErrorRecordView { error: self.error@ }
    }
}

impl ErrorRecordView {
    /// The record that a document holds, if the document fits.
    pub open spec fn of_json(doc: JsonModel) -> Option<ErrorRecordView> {
        match doc {
            JsonModel::Object(members) if members.contains_key("error"@) => {
                match ErrorRecord1View::of_json(members["error"@]) {
                    Some(error) => Some(ErrorRecordView { error }),
                    None => None,
                }
            },
            _ => None,
        }
    }

    /// The document that holds the record and nothing else.
    pub open spec fn to_json(self) -> JsonModel {
        JsonModel::Object(map!["error"@ => self.error.to_json()])
    }
}

impl ErrorRecord {
    /// Reads the record from a document: `None` where the document does not fit.
    pub fn from_json(doc: &serde_json::Value) -> (r: Option<ErrorRecord>)
        ensures
            match r {
                Some(record) => ErrorRecordView::of_json(json_model(*doc)) == Some(record@),
                None => ErrorRecordView::of_json(json_model(*doc)) is None,
            },
    {
        let inner = value_get(doc, "error")?;
        let error = ErrorRecord1::from_json(inner)?;
        Some(ErrorRecord { error })
    }
}

} // verus!
