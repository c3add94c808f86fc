use mailboxvalidator::{
    classify_status, decode_response, is_disposable_email, is_free_email, validate_email,
    DecodeError, DisposableEmailRecord, Document, Double, ErrorRecord, ErrorRecord1,
    FreeEmailRecord, Operation, StatusClass,
};
use mailboxvalidator::response::{read_document, read_rejection, read_success};

const DISPOSABLE_BODY: &str =
    "{\"email_address\":\"test@mailinator.com\",\"is_disposable\":true,\"credits_available\":100}";

const INVALID_KEY_BODY: &str = "{\"error\":{\"error_code\":100,\"error_message\":\"Invalid API key.\"}}";

const VALIDATION_BODY: &str = "{\"email_address\":\"example@example.com\",\
\"base_email_address\":\"example@example.com\",\"domain\":\"example.com\",\
\"is_free\":false,\"is_syntax\":true,\"is_domain\":true,\"is_smtp\":true,\
\"is_verified\":true,\"is_server_down\":false,\"is_greylisted\":false,\
\"is_disposable\":false,\"is_suppressed\":false,\"is_role\":false,\
\"is_high_risk\":false,\"is_catchall\":false,\"is_dmarc_enforced\":false,\
\"is_strict_spf\":true,\"website_exist\":true,\"status\":true,\
\"mailboxvalidator_score\":0.85,\"time_taken\":0.5123,\"credits_available\":7}";

fn invalid_key() -> Document {
    Document::Error(ErrorRecord {
        error: ErrorRecord1 { error_code: 100, error_message: String::from("Invalid API key.") },
    })
}

const OPERATIONS: [Operation; 3] = [Operation::Validation, Operation::Disposable, Operation::Free];

#[test]
fn status_codes_fall_into_three_classes() {
    assert_eq!(classify_status(200), StatusClass::Success);
    assert_eq!(classify_status(400), StatusClass::Rejected);
    assert_eq!(classify_status(401), StatusClass::Rejected);
    for status in [0u16, 100, 199, 201, 204, 301, 399, 402, 403, 404, 429, 500, 503, 65535] {
        assert_eq!(classify_status(status), StatusClass::Unexpected);
    }
}

#[test]
fn disposable_check_of_a_mailinator_address() {
    let request = is_disposable_email("test@mailinator.com", "KEY");
    let document = request.receive(200, DISPOSABLE_BODY.as_bytes()).unwrap();
    match document {
        Document::Disposable(record) => {
            assert_eq!(record.is_disposable, Some(true));
            assert_eq!(record.credits_available, 100);
            assert_eq!(record.email_address, "test@mailinator.com");
        }
        other => panic!("not a disposable email record: {:?}", other),
    }
}

#[test]
fn disposable_check_with_an_invalid_key_gives_the_reason() {
    let request = is_disposable_email("test@mailinator.com", "WRONG");
    assert_eq!(request.receive(401, INVALID_KEY_BODY.as_bytes()), Ok(invalid_key()));
}

#[test]
fn success_decodes_into_the_record_of_each_operation() {
    let document = validate_email("example@example.com", "KEY")
        .receive(200, VALIDATION_BODY.as_bytes())
        .unwrap();
    match document {
        Document::Validation(record) => {
            assert_eq!(record.email_address, "example@example.com");
            assert_eq!(record.base_email_address, "example@example.com");
            assert_eq!(record.domain, "example.com");
            assert_eq!(record.is_free, Some(false));
            assert_eq!(record.is_syntax, Some(true));
            assert_eq!(record.is_domain, Some(true));
            assert_eq!(record.is_smtp, Some(true));
            assert_eq!(record.is_verified, Some(true));
            assert_eq!(record.is_server_down, Some(false));
            assert_eq!(record.is_greylisted, Some(false));
            assert_eq!(record.is_disposable, Some(false));
            assert_eq!(record.is_suppressed, Some(false));
            assert_eq!(record.is_role, Some(false));
            assert_eq!(record.is_high_risk, Some(false));
            assert_eq!(record.is_catchall, Some(false));
            assert_eq!(record.is_dmarc_enforced, Some(false));
            assert_eq!(record.is_strict_spf, Some(true));
            assert_eq!(record.website_exist, Some(true));
            assert_eq!(record.status, Some(true));
            assert_eq!(record.mailboxvalidator_score, Double { bits: 0.85f64.to_bits() });
            assert_eq!(record.time_taken, Double { bits: 0.5123f64.to_bits() });
            assert_eq!(record.credits_available, 7);
        }
        other => panic!("not a validation record: {:?}", other),
    }
    assert_eq!(
        is_disposable_email("test@mailinator.com", "KEY").receive(200, DISPOSABLE_BODY.as_bytes()),
        Ok(Document::Disposable(DisposableEmailRecord {
            email_address: String::from("test@mailinator.com"),
            is_disposable: Some(true),
            credits_available: 100,
        }))
    );
    assert_eq!(
        is_free_email("someone@gmail.com", "KEY").receive(
            200,
            b"{\"email_address\":\"someone@gmail.com\",\"is_free\":true,\"credits_available\":3}"
        ),
        Ok(Document::Free(FreeEmailRecord {
            email_address: String::from("someone@gmail.com"),
            is_free: Some(true),
            credits_available: 3,
        }))
    );
}

#[test]
fn rejection_decodes_into_the_reason_whatever_the_operation() {
    for operation in OPERATIONS {
        for status in [400u16, 401] {
            assert_eq!(
                decode_response(operation, status, INVALID_KEY_BODY.as_bytes()),
                Ok(invalid_key())
            );
        }
    }
}

#[test]
fn rejection_with_a_record_in_the_body_is_refused() {
    for operation in OPERATIONS {
        assert_eq!(
            decode_response(operation, 400, DISPOSABLE_BODY.as_bytes()),
            Err(DecodeError::Schema)
        );
    }
}

#[test]
fn success_with_a_reason_in_the_body_is_refused() {
    for operation in OPERATIONS {
        assert_eq!(
            decode_response(operation, 200, INVALID_KEY_BODY.as_bytes()),
            Err(DecodeError::Schema)
        );
    }
}

#[test]
fn success_with_the_record_of_another_operation_is_refused() {
    assert_eq!(
        decode_response(Operation::Validation, 200, DISPOSABLE_BODY.as_bytes()),
        Err(DecodeError::Schema)
    );
    assert_eq!(
        decode_response(Operation::Free, 200, DISPOSABLE_BODY.as_bytes()),
        Ok(Document::Free(FreeEmailRecord {
            email_address: String::from("test@mailinator.com"),
            is_free: None,
            credits_available: 100,
        }))
    );
}

#[test]
fn any_other_status_gives_the_empty_document() {
    for operation in OPERATIONS {
        for status in [500u16, 404, 403, 302, 201, 0] {
            assert_eq!(decode_response(operation, status, DISPOSABLE_BODY.as_bytes()), Ok(Document::Null));
            assert_eq!(decode_response(operation, status, INVALID_KEY_BODY.as_bytes()), Ok(Document::Null));
            assert_eq!(decode_response(operation, status, b"<html>oops</html>"), Ok(Document::Null));
            assert_eq!(decode_response(operation, status, b""), Ok(Document::Null));
        }
    }
}

#[test]
fn success_without_the_address_is_refused() {
    assert_eq!(
        decode_response(
            Operation::Disposable,
            200,
            b"{\"is_disposable\":true,\"credits_available\":100}"
        ),
        Err(DecodeError::Schema)
    );
    assert_eq!(
        decode_response(Operation::Free, 200, b"{\"is_free\":true,\"credits_available\":100}"),
        Err(DecodeError::Schema)
    );
    let without = VALIDATION_BODY.replace("\"email_address\":\"example@example.com\",", "");
    assert_eq!(
        decode_response(Operation::Validation, 200, without.as_bytes()),
        Err(DecodeError::Schema)
    );
}

#[test]
fn body_that_is_no_json_text_is_refused() {
    for operation in OPERATIONS {
        for status in [200u16, 400, 401] {
            assert_eq!(decode_response(operation, status, b""), Err(DecodeError::Syntax));
            assert_eq!(decode_response(operation, status, b"<html>"), Err(DecodeError::Syntax));
            assert_eq!(
                decode_response(operation, status, b"{\"email_address\":"),
                Err(DecodeError::Syntax)
            );
            assert_eq!(
                decode_response(operation, status, &[b'"', 0xff, b'"']),
                Err(DecodeError::Syntax)
            );
        }
    }
}

#[test]
fn text_after_the_document_is_refused() {
    let mut body = String::from(DISPOSABLE_BODY);
    body.push_str(" x");
    assert_eq!(
        decode_response(Operation::Disposable, 200, body.as_bytes()),
        Err(DecodeError::Syntax)
    );
}

#[test]
fn white_space_around_the_document_is_passed_over() {
    let body = format!(" \n\t{}\r\n ", DISPOSABLE_BODY);
    assert_eq!(
        decode_response(Operation::Disposable, 200, body.as_bytes()),
        Ok(Document::Disposable(DisposableEmailRecord {
            email_address: String::from("test@mailinator.com"),
            is_disposable: Some(true),
            credits_available: 100,
        }))
    );
}

#[test]
fn escapes_in_strings_are_resolved() {
    assert_eq!(
        decode_response(
            Operation::Free,
            200,
            b"{\"email_address\":\"j\\u00fcrgen@ex\\\"ample.de\",\"is_free\":false,\"credits_available\":1}"
        ),
        Ok(Document::Free(FreeEmailRecord {
            email_address: String::from("jürgen@ex\"ample.de"),
            is_free: Some(false),
            credits_available: 1,
        }))
    );
}

#[test]
fn json_text_of_another_shape_is_a_schema_error() {
    for operation in OPERATIONS {
        for status in [200u16, 400, 401] {
            for body in ["null", "true", "12", "\"text\"", "[]", "{}"] {
                assert_eq!(
                    decode_response(operation, status, body.as_bytes()),
                    Err(DecodeError::Schema)
                );
            }
        }
    }
}

#[test]
fn parsed_values_are_read_as_bodies_are() {
    let doc: serde_json::Value = serde_json::from_str(DISPOSABLE_BODY).unwrap();
    let reason: serde_json::Value = serde_json::from_str(INVALID_KEY_BODY).unwrap();
    let record = Document::Disposable(DisposableEmailRecord {
        email_address: String::from("test@mailinator.com"),
        is_disposable: Some(true),
        credits_available: 100,
    });
    assert_eq!(read_success(Operation::Disposable, &doc), Some(record.clone()));
    assert_eq!(read_success(Operation::Validation, &doc), None);
    assert_eq!(read_success(Operation::Disposable, &reason), None);
    assert_eq!(read_rejection(&reason), Some(invalid_key()));
    assert_eq!(read_rejection(&doc), None);
    assert_eq!(read_document(Operation::Disposable, 200, &doc), Ok(record));
    assert_eq!(read_document(Operation::Disposable, 400, &doc), Err(DecodeError::Schema));
    assert_eq!(read_document(Operation::Disposable, 401, &reason), Ok(invalid_key()));
    assert_eq!(read_document(Operation::Disposable, 200, &reason), Err(DecodeError::Schema));
    assert_eq!(read_document(Operation::Disposable, 500, &reason), Ok(Document::Null));
}
