//! From an HTTP response to the document that the caller receives.
//!
//! The status code picks what the body is read as. With `200` the body holds
//! the record of the operation that was asked for. With `400` and `401` the
//! service has turned the request down and the body says why: this is an
//! answer like any other, not a failure. With any other status the body is not
//! looked at, and the document is empty.

use vstd::prelude::*;
use crate::json::{json_model, json_parse, value_from_slice, JsonModel};
use crate::record::{
    DisposableEmailRecord, DisposableEmailRecordView, ErrorRecord, ErrorRecordView,
    FreeEmailRecord, FreeEmailRecordView,
};
use crate::request::Operation;
use crate::validation::{SingleEmailValidationRecord, SingleEmailValidationRecordView};

verus! {

/// What a status code means for the body that comes with it.
#[derive(Clone, Copy, Debug, PartialEq, Eq, Structural)]
pub enum StatusClass {
    /// `200`: the body holds the record that was asked for.
    Success,
    /// `400` or `401`: the body holds the service's reason for turning the
    /// request down.
    Rejected,
    /// Any other status: the body is not read.
    Unexpected,
}

/// The class of a status code.
pub open spec fn status_class(status: u16) -> StatusClass {
    if status == 200 {
        StatusClass::Success
    } else if status == 400 || status == 401 {
        StatusClass::Rejected
    } else {
        StatusClass::Unexpected
    }
}

/// Classifies a status code.
pub fn classify_status(status: u16) -> (class: StatusClass)
    ensures
        class == status_class(status),
{
    if status == 200 {
        StatusClass::Success
    } else if status == 400 || status == 401 {
        StatusClass::Rejected
    } else {
        StatusClass::Unexpected
    }
}

/// Why a body could not be turned into a document.
#[derive(Clone, Copy, Debug, PartialEq, Eq, Structural)]
pub enum DecodeError {
    /// The body is not a JSON text.
    Syntax,
    /// The body is a JSON text, but not of the shape that the status calls for.
    Schema,
}

/// What a call hands back to its caller.
#[derive(Clone, Debug, PartialEq, Eq)]
pub enum Document {
    /// The empty document of a status that is neither success nor rejection.
    Null,
    Validation(SingleEmailValidationRecord),
    Disposable(DisposableEmailRecord),
    Free(FreeEmailRecord),
    /// The service turned the request down.
    Error(ErrorRecord),
}

/// The mathematical value of a [`Document`].
pub ghost enum DocumentView {
    Null,
    Validation(SingleEmailValidationRecordView),
    Disposable(DisposableEmailRecordView),
    Free(FreeEmailRecordView),
    Error(ErrorRecordView),
}

impl View for Document {
    type V = DocumentView;

    open spec fn view(&self) -> DocumentView {
        match *self {
            Document::Null => DocumentView::Null,
            Document::Validation(record) => DocumentView::Validation(record@),
            Document::Disposable(record) => DocumentView::Disposable(record@),
            Document::Free(record) => DocumentView::Free(record@),
            Document::Error(record) => DocumentView::Error(record@),
        }
    }
}

/// The record of an operation that a JSON value holds, if the value fits.
pub open spec fn success_of(operation: Operation, doc: JsonModel) -> Option<DocumentView> {
    match operation {
        Operation::Validation => match SingleEmailValidationRecordView::of_json(doc) {
            Some(record) => Some(DocumentView::Validation(record)),
            None => None,
        },
        Operation::Disposable => match DisposableEmailRecordView::of_json(doc) {
            Some(record) => Some(DocumentView::Disposable(record)),
            None => None,
        },
        Operation::Free => match FreeEmailRecordView::of_json(doc) {
            Some(record) => Some(DocumentView::Free(record)),
            None => None,
        },
    }
}

/// The service's reason that a JSON value holds, if the value fits.
pub open spec fn rejection_of(doc: JsonModel) -> Option<DocumentView> {
    match ErrorRecordView::of_json(doc) {
        Some(record) => Some(DocumentView::Error(record)),
        None => None,
    }
}

/// The document of a JSON value that came with a status, for an operation.
pub open spec fn document_of_json(operation: Operation, status: u16, doc: JsonModel) -> Result<
    DocumentView,
    DecodeError,
> {
    let found = match status_class(status) {
        StatusClass::Success => success_of(operation, doc),
        StatusClass::Rejected => rejection_of(doc),
        StatusClass::Unexpected => Some(DocumentView::Null),
    };
    match found {
        Some(document) => Ok(document),
        None => Err(DecodeError::Schema),
    }
}

/// The document of a response, for an operation, where `parsed` is what the
/// body reads as: a JSON value, or nothing where the body is no JSON text.
pub open spec fn document_of(operation: Operation, status: u16, parsed: Option<JsonModel>) -> Result<
    DocumentView,
    DecodeError,
> {
    if status_class(status) == StatusClass::Unexpected {
        Ok(DocumentView::Null)
    } else {
        match parsed {
            Some(doc) => document_of_json(operation, status, doc),
            None => Err(DecodeError::Syntax),
        }
    }
}

/// Whether a result is the one that a contract names.
pub open spec fn yields(r: Result<Document, DecodeError>, expected: Result<
    DocumentView,
    DecodeError,
>) -> bool {
    match r {
        Ok(document) => expected == Ok::<DocumentView, DecodeError>(document@),
        Err(error) => expected == Err::<DocumentView, DecodeError>(error),
    }
}

/// Reads the record of an operation from a JSON value.
pub fn read_success(operation: Operation, doc: &serde_json::Value) -> (r: Option<Document>)
    ensures
        match r {
            Some(document) => success_of(operation, json_model(*doc)) == Some(document@),
            None => success_of(operation, json_model(*doc)) is None,
        },
{
    match operation {
        Operation::Validation => match SingleEmailValidationRecord::from_json(doc) {
            Some(record) => Some(Document::Validation(record)),
            None => None,
        },
        Operation::Disposable => match DisposableEmailRecord::from_json(doc) {
            Some(record) => Some(Document::Disposable(record)),
            None => None,
        },
        Operation::Free => match FreeEmailRecord::from_json(doc) {
            Some(record) => Some(Document::Free(record)),
            None => None,
        },
    }
}

/// Reads the service's reason for turning a request down from a JSON value.
pub fn read_rejection(doc: &serde_json::Value) -> (r: Option<Document>)
    ensures
        match r {
            Some(document) => rejection_of(json_model(*doc)) == Some(document@),
            None => rejection_of(json_model(*doc)) is None,
        },
{
    match ErrorRecord::from_json(doc) {
        Some(record) => Some(Document::Error(record)),
        None => None,
    }
}

/// Turns a JSON value that came with a status into the document of an
/// operation.
///
/// The result is an error exactly where the status is `200`, `400` or `401`
/// and the value does not fit what that status calls for.
pub fn read_document(operation: Operation, status: u16, doc: &serde_json::Value) -> (r: Result<
    Document,
    DecodeError,
>)
    ensures
        yields(r, document_of_json(operation, status, json_model(*doc))),
{
    let found = match classify_status(status) {
        StatusClass::Success => read_success(operation, doc),
        StatusClass::Rejected => read_rejection(doc),
        StatusClass::Unexpected => Some(Document::Null),
    };
    match found {
        Some(document) => Ok(document),
        None => Err(DecodeError::Schema),
    }
}

/// Turns a response into the document of an operation.
///
/// With a status other than `200`, `400` and `401` the result is the empty
/// document, whatever the body holds. Otherwise the body is parsed: the result
/// is `DecodeError::Syntax` exactly where it is no JSON text,
/// `DecodeError::Schema` exactly where it is one that does not fit, and else
/// the record that it holds.
pub fn decode_response(operation: Operation, status: u16, body: &[u8]) -> (r: Result<
    Document,
    DecodeError,
>)
    ensures
        yields(r, document_of(operation, status, json_parse(body@))),
        status != 200 && status != 400 && status != 401 ==> r matches Ok(Document::Null),
{
    match classify_status(status) {
        StatusClass::Unexpected => Ok(Document::Null),
        _ => match value_from_slice(body) {
            Ok(doc) => read_document(operation, status, &doc),
            Err(_) => Err(DecodeError::Syntax),
        },
    }
}

} // verus!
