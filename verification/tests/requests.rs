use mailboxvalidator::{is_disposable_email, is_free_email, validate_email, Operation, Request};

#[test]
fn validation_request_names_the_single_validation_endpoint() {
    let request = validate_email("example@example.com", "KEY123");
    assert_eq!(request.operation, Operation::Validation);
    assert_eq!(
        request.url,
        "https://api.mailboxvalidator.com/v2/validation/single?email=example@example.com&key=KEY123&format=json&source=sdk-rust-mbv"
    );
}

#[test]
fn disposable_request_names_the_disposable_endpoint() {
    let request = is_disposable_email("test@mailinator.com", "KEY123");
    assert_eq!(request.operation, Operation::Disposable);
    assert_eq!(
        request.url,
        "https://api.mailboxvalidator.com/v2/email/disposable?email=test@mailinator.com&key=KEY123&format=json&source=sdk-rust-mbv"
    );
}

#[test]
fn free_request_names_the_free_endpoint() {
    let request = is_free_email("someone@gmail.com", "KEY123");
    assert_eq!(request.operation, Operation::Free);
    assert_eq!(
        request.url,
        "https://api.mailboxvalidator.com/v2/email/free?email=someone@gmail.com&key=KEY123&format=json&source=sdk-rust-mbv"
    );
}

#[test]
fn endpoints_are_the_three_versioned_paths() {
    assert_eq!(
        Operation::Validation.endpoint(),
        "https://api.mailboxvalidator.com/v2/validation/single"
    );
    assert_eq!(
        Operation::Disposable.endpoint(),
        "https://api.mailboxvalidator.com/v2/email/disposable"
    );
    assert_eq!(Operation::Free.endpoint(), "https://api.mailboxvalidator.com/v2/email/free");
}

#[test]
fn empty_address_and_key_leave_empty_parameters() {
    let request = validate_email("", "");
    assert_eq!(
        request.url,
        "https://api.mailboxvalidator.com/v2/validation/single?email=&key=&format=json&source=sdk-rust-mbv"
    );
}

#[test]
fn address_and_key_are_forwarded_as_given() {
    let request = is_free_email("not an address & more", "k e y=?");
    assert_eq!(
        request.url,
        "https://api.mailboxvalidator.com/v2/email/free?email=not an address & more&key=k e y=?&format=json&source=sdk-rust-mbv"
    );
}

#[test]
fn non_ascii_address_is_forwarded_as_given() {
    let request = is_disposable_email("jürgen@exämple.de", "schlüssel");
    assert_eq!(
        request.url,
        "https://api.mailboxvalidator.com/v2/email/disposable?email=jürgen@exämple.de&key=schlüssel&format=json&source=sdk-rust-mbv"
    );
}

#[test]
fn named_requests_are_those_of_their_operations() {
    assert_eq!(validate_email("a@b.c", "k"), Request::new(Operation::Validation, "a@b.c", "k"));
    assert_eq!(is_disposable_email("a@b.c", "k"), Request::new(Operation::Disposable, "a@b.c", "k"));
    assert_eq!(is_free_email("a@b.c", "k"), Request::new(Operation::Free, "a@b.c", "k"));
}
