//! Client-side rules of the MailboxValidator email validation service.
//!
//! The service offers three checks of an email address: the single
//! validation, the disposable email check and the free email check. This
//! library builds the request of each and turns the response into a typed
//! document. It sends nothing itself: the caller gets the URL of a
//! [`Request`], and hands the status code and the body of the response to
//! [`Request::receive`].
//!
//! The body is parsed by `serde_json`. What the library assumes of it is laid
//! down in [`json`]; everything else is proved.

pub mod json;
pub mod laws;
pub mod member;
pub mod record;
pub mod request;
pub mod response;
pub mod validation;

pub use member::{Double, Member};
pub use record::{DisposableEmailRecord, ErrorRecord, ErrorRecord1, FreeEmailRecord};
pub use request::{is_disposable_email, is_free_email, validate_email, Operation, Request};
pub use response::{classify_status, decode_response, DecodeError, Document, StatusClass};
pub use validation::SingleEmailValidationRecord;
