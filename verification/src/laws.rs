//! What holds of the library as a whole.
//!
//! Each statement here is a theorem about the functions that the contracts of
//! the library are written in.

use vstd::prelude::*;
use crate::json::JsonModel;
use crate::member::{has_member, member_of};
use crate::record::{
    double_at, flag_at, integer_at, text_at, DisposableEmailRecordView, ErrorRecord1View,
    ErrorRecordView, FreeEmailRecordView,
};
use crate::request::Operation;
use crate::response::{
    document_of, document_of_json, rejection_of, status_class, success_of, DecodeError,
    DocumentView, StatusClass,
};
use crate::validation::SingleEmailValidationRecordView;

verus! {

/// What tells the names of the members apart: the length of a name, and three
/// of its characters.
pub open spec fn mark(key: Seq<char>) -> (nat, char, char, char) {
    (key.len(), key[0], key[3], key[4])
}

/// No two members of a record, and no two of the service's reason, have the
/// same name: their marks differ.
pub proof fn member_names_differ()
    ensures
        mark("email_address"@) == (13nat, 'e', 'i', 'l'),
        mark("base_email_address"@) == (18nat, 'b', 'e', '_'),
        mark("domain"@) == (6nat, 'd', 'a', 'i'),
        mark("is_free"@) == (7nat, 'i', 'f', 'r'),
        mark("is_syntax"@) == (9nat, 'i', 's', 'y'),
        mark("is_domain"@) == (9nat, 'i', 'd', 'o'),
        mark("is_smtp"@) == (7nat, 'i', 's', 'm'),
        mark("is_verified"@) == (11nat, 'i', 'v', 'e'),
        mark("is_server_down"@) == (14nat, 'i', 's', 'e'),
        mark("is_greylisted"@) == (13nat, 'i', 'g', 'r'),
        mark("is_disposable"@) == (13nat, 'i', 'd', 'i'),
        mark("is_suppressed"@) == (13nat, 'i', 's', 'u'),
        mark("is_role"@) == (7nat, 'i', 'r', 'o'),
        mark("is_high_risk"@) == (12nat, 'i', 'h', 'i'),
        mark("is_catchall"@) == (11nat, 'i', 'c', 'a'),
        mark("is_dmarc_enforced"@) == (17nat, 'i', 'd', 'm'),
        mark("is_strict_spf"@) == (13nat, 'i', 's', 't'),
        mark("website_exist"@) == (13nat, 'w', 's', 'i'),
        mark("status"@) == (6nat, 's', 't', 'u'),
        mark("mailboxvalidator_score"@) == (22nat, 'm', 'l', 'b'),
        mark("time_taken"@) == (10nat, 't', 'e', '_'),
        mark("credits_available"@) == (17nat, 'c', 'd', 'i'),
        mark("error"@) == (5nat, 'e', 'o', 'r'),
        mark("error_code"@) == (10nat, 'e', 'o', 'r'),
        mark("error_message"@) == (13nat, 'e', 'o', 'r'),
{
    reveal_strlit("email_address");
    reveal_strlit("base_email_address");
    reveal_strlit("domain");
    reveal_strlit("is_free");
    reveal_strlit("is_syntax");
    reveal_strlit("is_domain");
    reveal_strlit("is_smtp");
    reveal_strlit("is_verified");
    reveal_strlit("is_server_down");
    reveal_strlit("is_greylisted");
    reveal_strlit("is_disposable");
    reveal_strlit("is_suppressed");
    reveal_strlit("is_role");
    reveal_strlit("is_high_risk");
    reveal_strlit("is_catchall");
    reveal_strlit("is_dmarc_enforced");
    reveal_strlit("is_strict_spf");
    reveal_strlit("website_exist");
    reveal_strlit("status");
    reveal_strlit("mailboxvalidator_score");
    reveal_strlit("time_taken");
    reveal_strlit("credits_available");
    reveal_strlit("error");
    reveal_strlit("error_code");
    reveal_strlit("error_message");
}

/// A disposable email record is read back from its own document as it is.
pub proof fn disposable_record_round_trip(record: DisposableEmailRecordView)
    ensures
        DisposableEmailRecordView::of_json(record.to_json()) == Some(record),
{
    member_names_differ();
}

/// A free email record is read back from its own document as it is.
pub proof fn free_record_round_trip(record: FreeEmailRecordView)
    ensures
        FreeEmailRecordView::of_json(record.to_json()) == Some(record),
{
    member_names_differ();
}

/// A validation record is read back from its own document as it is.
pub proof fn validation_record_round_trip(record: SingleEmailValidationRecordView)
    ensures
        SingleEmailValidationRecordView::of_json(record.to_json()) == Some(record),
{
    member_names_differ();
    let doc = record.to_json();
    assert(text_at(doc, "email_address"@) == Some(record.email_address));
    assert(text_at(doc, "base_email_address"@) == Some(record.base_email_address));
    assert(text_at(doc, "domain"@) == Some(record.domain));
    assert(flag_at(doc, "is_free"@) == Some(record.is_free));
    assert(flag_at(doc, "is_syntax"@) == Some(record.is_syntax));
    assert(flag_at(doc, "is_domain"@) == Some(record.is_domain));
    assert(flag_at(doc, "is_smtp"@) == Some(record.is_smtp));
    assert(flag_at(doc, "is_verified"@) == Some(record.is_verified));
    assert(flag_at(doc, "is_server_down"@) == Some(record.is_server_down));
    assert(flag_at(doc, "is_greylisted"@) == Some(record.is_greylisted));
    assert(flag_at(doc, "is_disposable"@) == Some(record.is_disposable));
    assert(flag_at(doc, "is_suppressed"@) == Some(record.is_suppressed));
    assert(flag_at(doc, "is_role"@) == Some(record.is_role));
    assert(flag_at(doc, "is_high_risk"@) == Some(record.is_high_risk));
    assert(flag_at(doc, "is_catchall"@) == Some(record.is_catchall));
    assert(flag_at(doc, "is_dmarc_enforced"@) == Some(record.is_dmarc_enforced));
    assert(flag_at(doc, "is_strict_spf"@) == Some(record.is_strict_spf));
    assert(flag_at(doc, "website_exist"@) == Some(record.website_exist));
    assert(flag_at(doc, "status"@) == Some(record.status));
    assert(double_at(doc, "mailboxvalidator_score"@) == Some(record.mailboxvalidator_score));
    assert(double_at(doc, "time_taken"@) == Some(record.time_taken));
    assert(integer_at(doc, "credits_available"@) == Some(record.credits_available));
}

/// The service's reason is read back from its own document as it is.
pub proof fn error_record_round_trip(record: ErrorRecordView)
    ensures
        ErrorRecord1View::of_json(record.error.to_json()) == Some(record.error),
        ErrorRecordView::of_json(record.to_json()) == Some(record),
{
    member_names_differ();
}

/// The document that a record of an operation is written as.
pub open spec fn json_of_document(document: DocumentView) -> JsonModel {
    match document {
        DocumentView::Null => JsonModel::Null,
        DocumentView::Validation(record) => record.to_json(),
        DocumentView::Disposable(record) => record.to_json(),
        DocumentView::Free(record) => record.to_json(),
        DocumentView::Error(record) => record.to_json(),
    }
}

/// Whether a document is the record of an operation.
pub open spec fn is_record_of(document: DocumentView, operation: Operation) -> bool {
    match operation {
        Operation::Validation => document is Validation,
        Operation::Disposable => document is Disposable,
        Operation::Free => document is Free,
    }
}

/// With status `200`, the body that a record of the operation is written as
/// gives that record back, field by field.
pub proof fn success_round_trip(operation: Operation, document: DocumentView)
    requires
        is_record_of(document, operation),
    ensures
        success_of(operation, json_of_document(document)) == Some(document),
        document_of_json(operation, 200, json_of_document(document)) == Ok::<
            DocumentView,
            DecodeError,
        >(document),
        document_of(operation, 200, Some(json_of_document(document))) == Ok::<
            DocumentView,
            DecodeError,
        >(document),
{
    match document {
        DocumentView::Validation(record) => validation_record_round_trip(record),
        DocumentView::Disposable(record) => disposable_record_round_trip(record),
        DocumentView::Free(record) => free_record_round_trip(record),
        _ => {},
    }
}

/// With status `400` or `401`, the body that the service's reason is written
/// as gives that reason back, whichever operation was asked for.
pub proof fn rejection_round_trip(operation: Operation, status: u16, record: ErrorRecordView)
    requires
        status == 400 || status == 401,
    ensures
        document_of(operation, status, Some(record.to_json())) == Ok::<DocumentView, DecodeError>(
            DocumentView::Error(record),
        ),
{
    error_record_round_trip(record);
}

/// With status `400` or `401`, the operation that was asked for has no part in
/// what the response is read as: the document is the service's reason where the
/// body holds one, and an error where it does not.
pub proof fn rejection_ignores_operation(
    first: Operation,
    second: Operation,
    status: u16,
    parsed: Option<JsonModel>,
)
    requires
        status == 400 || status == 401,
    ensures
        document_of(first, status, parsed) == document_of(second, status, parsed),
        document_of(first, status, parsed) matches Ok(document) ==> document is Error,
        parsed matches Some(doc) ==> (document_of(first, status, parsed) is Ok <==> rejection_of(
            doc,
        ) is Some),
{
}

/// With a status other than `200`, `400` and `401` the document is empty and
/// the call does not fail, whatever the operation and whatever the body.
pub proof fn unexpected_status_gives_null(
    operation: Operation,
    status: u16,
    parsed: Option<JsonModel>,
)
    requires
        status != 200,
        status != 400,
        status != 401,
    ensures
        status_class(status) == StatusClass::Unexpected,
        document_of(operation, status, parsed) == Ok::<DocumentView, DecodeError>(
            DocumentView::Null,
        ),
{
}

/// What kind of document a response gives is settled by its status: with
/// `200` the record of the operation, with `400` and `401` the service's
/// reason, with any other status the empty document. A call fails only with
/// `200`, `400` or `401`.
pub proof fn document_kind_follows_status(
    operation: Operation,
    status: u16,
    parsed: Option<JsonModel>,
)
    ensures
        match document_of(operation, status, parsed) {
            Ok(document) => match status_class(status) {
                StatusClass::Success => is_record_of(document, operation),
                StatusClass::Rejected => document is Error,
                StatusClass::Unexpected => document is Null,
            },
            Err(_) => status == 200 || status == 400 || status == 401,
        },
{
}

/// Whether the record of an operation has a field of that name.
pub open spec fn names_member(operation: Operation, key: Seq<char>) -> bool {
    match operation {
        Operation::Validation => {
            ||| key == "email_address"@
            ||| key == "base_email_address"@
            ||| key == "domain"@
            ||| key == "is_free"@
            ||| key == "is_syntax"@
            ||| key == "is_domain"@
            ||| key == "is_smtp"@
            ||| key == "is_verified"@
            ||| key == "is_server_down"@
            ||| key == "is_greylisted"@
            ||| key == "is_disposable"@
            ||| key == "is_suppressed"@
            ||| key == "is_role"@
            ||| key == "is_high_risk"@
            ||| key == "is_catchall"@
            ||| key == "is_dmarc_enforced"@
            ||| key == "is_strict_spf"@
            ||| key == "website_exist"@
            ||| key == "status"@
            ||| key == "mailboxvalidator_score"@
            ||| key == "time_taken"@
            ||| key == "credits_available"@
        },
        Operation::Disposable => {
            ||| key == "email_address"@
            ||| key == "is_disposable"@
            ||| key == "credits_available"@
        },
        Operation::Free => {
            ||| key == "email_address"@
            ||| key == "is_free"@
            ||| key == "credits_available"@
        },
    }
}

/// Putting a member under one key leaves what stands under every other key.
pub proof fn other_member_is_untouched(
    members: Map<Seq<char>, JsonModel>,
    key: Seq<char>,
    value: JsonModel,
    other: Seq<char>,
)
    requires
        other != key,
    ensures
        member_of(JsonModel::Object(members.insert(key, value)), other) == member_of(
            JsonModel::Object(members),
            other,
        ),
{
}

/// A member that the record of the operation does not name has no part in
/// what a body is read as: with it or without it, the record is the same.
pub proof fn unnamed_member_is_passed_over(
    operation: Operation,
    members: Map<Seq<char>, JsonModel>,
    key: Seq<char>,
    value: JsonModel,
)
    requires
        !names_member(operation, key),
    ensures
        success_of(operation, JsonModel::Object(members.insert(key, value))) == success_of(
            operation,
            JsonModel::Object(members),
        ),
{
    match operation {
        Operation::Validation => {
            other_member_is_untouched(members, key, value, "email_address"@);
            other_member_is_untouched(members, key, value, "base_email_address"@);
            other_member_is_untouched(members, key, value, "domain"@);
            other_member_is_untouched(members, key, value, "is_free"@);
            other_member_is_untouched(members, key, value, "is_syntax"@);
            other_member_is_untouched(members, key, value, "is_domain"@);
            other_member_is_untouched(members, key, value, "is_smtp"@);
            other_member_is_untouched(members, key, value, "is_verified"@);
            other_member_is_untouched(members, key, value, "is_server_down"@);
            other_member_is_untouched(members, key, value, "is_greylisted"@);
            other_member_is_untouched(members, key, value, "is_disposable"@);
            other_member_is_untouched(members, key, value, "is_suppressed"@);
            other_member_is_untouched(members, key, value, "is_role"@);
            other_member_is_untouched(members, key, value, "is_high_risk"@);
            other_member_is_untouched(members, key, value, "is_catchall"@);
            other_member_is_untouched(members, key, value, "is_dmarc_enforced"@);
            other_member_is_untouched(members, key, value, "is_strict_spf"@);
            other_member_is_untouched(members, key, value, "website_exist"@);
            other_member_is_untouched(members, key, value, "status"@);
            other_member_is_untouched(members, key, value, "mailboxvalidator_score"@);
            other_member_is_untouched(members, key, value, "time_taken"@);
            other_member_is_untouched(members, key, value, "credits_available"@);
        },
        Operation::Disposable => {},
        Operation::Free => {},
    }
}

/// A member beside the service's reason has no part in what a body is read as.
pub proof fn member_beside_reason_is_passed_over(
    members: Map<Seq<char>, JsonModel>,
    key: Seq<char>,
    value: JsonModel,
)
    requires
        key != "error"@,
    ensures
        rejection_of(JsonModel::Object(members.insert(key, value))) == rejection_of(
            JsonModel::Object(members),
        ),
{
}

/// Whether the record of an operation must have a member under the key: the
/// strings, the integers and the real numbers, but not the flags.
pub open spec fn is_required(operation: Operation, key: Seq<char>) -> bool {
    match operation {
        Operation::Validation => {
            ||| key == "email_address"@
            ||| key == "base_email_address"@
            ||| key == "domain"@
            ||| key == "mailboxvalidator_score"@
            ||| key == "time_taken"@
            ||| key == "credits_available"@
        },
        Operation::Disposable => key == "email_address"@ || key == "credits_available"@,
        Operation::Free => key == "email_address"@ || key == "credits_available"@,
    }
}

/// With status `200`, a body that lacks a member which the record of the
/// operation must have is refused.
pub proof fn missing_member_is_refused(operation: Operation, doc: JsonModel, key: Seq<char>)
    requires
        is_required(operation, key),
        !has_member(doc, key),
    ensures
        success_of(operation, doc) is None,
        document_of(operation, 200, Some(doc)) == Err::<DocumentView, DecodeError>(
            DecodeError::Schema,
        ),
{
}

/// With status `200`, `400` or `401`, a body that is no JSON text is refused.
pub proof fn malformed_body_is_refused(operation: Operation, status: u16)
    requires
        status == 200 || status == 400 || status == 401,
    ensures
        document_of(operation, status, None) == Err::<DocumentView, DecodeError>(
            DecodeError::Syntax,
        ),
{
}

} // verus!
