//! The record of the single validation, the fullest of the three answers.

use vstd::prelude::*;
use crate::json::{json_model, JsonModel};
use crate::member::Double;
use crate::record::{
    double_at, flag_at, flag_json, integer_at, read_double, read_flag, read_integer, read_text,
    text_at,
};

verus! {

/// The answer of the single validation.
///
/// The flags are unset where the service left them out. The score and the time
/// taken, in seconds, are real numbers.
#[derive(Clone, Debug, PartialEq, Eq)]
pub struct SingleEmailValidationRecord {
    pub email_address: String,
    pub base_email_address: String,
    pub domain: String,
    pub is_free: Option<bool>,
    pub is_syntax: Option<bool>,
    pub is_domain: Option<bool>,
    pub is_smtp: Option<bool>,
    pub is_verified: Option<bool>,
    pub is_server_down: Option<bool>,
    pub is_greylisted: Option<bool>,
    pub is_disposable: Option<bool>,
    pub is_suppressed: Option<bool>,
    pub is_role: Option<bool>,
    pub is_high_risk: Option<bool>,
    pub is_catchall: Option<bool>,
    pub is_dmarc_enforced: Option<bool>,
    pub is_strict_spf: Option<bool>,
    pub website_exist: Option<bool>,
    pub status: Option<bool>,
    pub mailboxvalidator_score: Double,
    pub time_taken: Double,
    pub credits_available: i64,
}

/// The mathematical value of a [`SingleEmailValidationRecord`].
pub ghost struct SingleEmailValidationRecordView {
    pub email_address: Seq<char>,
    pub base_email_address: Seq<char>,
    pub domain: Seq<char>,
    pub is_free: Option<bool>,
    pub is_syntax: Option<bool>,
    pub is_domain: Option<bool>,
    pub is_smtp: Option<bool>,
    pub is_verified: Option<bool>,
    pub is_server_down: Option<bool>,
    pub is_greylisted: Option<bool>,
    pub is_disposable: Option<bool>,
    pub is_suppressed: Option<bool>,
    pub is_role: Option<bool>,
    pub is_high_risk: Option<bool>,
    pub is_catchall: Option<bool>,
    pub is_dmarc_enforced: Option<bool>,
    pub is_strict_spf: Option<bool>,
    pub website_exist: Option<bool>,
    pub status: Option<bool>,
    pub mailboxvalidator_score: Double,
    pub time_taken: Double,
    pub credits_available: i64,
}

impl View for SingleEmailValidationRecord {
    type V = SingleEmailValidationRecordView;

    open spec fn view(&self) -> SingleEmailValidationRecordView {
        SingleEmailValidationRecordView {
            email_address: self.email_address@,
            base_email_address: self.base_email_address@,
            domain: self.domain@,
            is_free: self.is_free,
            is_syntax: self.is_syntax,
            is_domain: self.is_domain,
            is_smtp: self.is_smtp,
            is_verified: self.is_verified,
            is_server_down: self.is_server_down,
            is_greylisted: self.is_greylisted,
            is_disposable: self.is_disposable,
            is_suppressed: self.is_suppressed,
            is_role: self.is_role,
            is_high_risk: self.is_high_risk,
            is_catchall: self.is_catchall,
            is_dmarc_enforced: self.is_dmarc_enforced,
            is_strict_spf: self.is_strict_spf,
            website_exist: self.website_exist,
            status: self.status,
            mailboxvalidator_score: self.mailboxvalidator_score,
            time_taken: self.time_taken,
            credits_available: self.credits_available,
        }
    }
}

impl SingleEmailValidationRecordView {
    /// Whether a document has every field of the record, each as its rule asks.
    pub open spec fn fits(doc: JsonModel) -> bool {
        &&& text_at(doc, "email_address"@) is Some
        &&& text_at(doc, "base_email_address"@) is Some
        &&& text_at(doc, "domain"@) is Some
        &&& flag_at(doc, "is_free"@) is Some
        &&& flag_at(doc, "is_syntax"@) is Some
        &&& flag_at(doc, "is_domain"@) is Some
        &&& flag_at(doc, "is_smtp"@) is Some
        &&& flag_at(doc, "is_verified"@) is Some
        &&& flag_at(doc, "is_server_down"@) is Some
        &&& flag_at(doc, "is_greylisted"@) is Some
        &&& flag_at(doc, "is_disposable"@) is Some
        &&& flag_at(doc, "is_suppressed"@) is Some
        &&& flag_at(doc, "is_role"@) is Some
        &&& flag_at(doc, "is_high_risk"@) is Some
        &&& flag_at(doc, "is_catchall"@) is Some
        &&& flag_at(doc, "is_dmarc_enforced"@) is Some
        &&& flag_at(doc, "is_strict_spf"@) is Some
        &&& flag_at(doc, "website_exist"@) is Some
        &&& flag_at(doc, "status"@) is Some
        &&& double_at(doc, "mailboxvalidator_score"@) is Some
        &&& double_at(doc, "time_taken"@) is Some
        &&& integer_at(doc, "credits_available"@) is Some
    }

    /// The record that a document holds, if the document fits.
    pub open spec fn of_json(doc: JsonModel) -> Option<SingleEmailValidationRecordView> {
        if Self::fits(doc) {
            Some(
                SingleEmailValidationRecordView {
                    email_address: text_at(doc, "email_address"@)->0,
                    base_email_address: text_at(doc, "base_email_address"@)->0,
                    domain: text_at(doc, "domain"@)->0,
                    is_free: flag_at(doc, "is_free"@)->0,
                    is_syntax: flag_at(doc, "is_syntax"@)->0,
                    is_domain: flag_at(doc, "is_domain"@)->0,
                    is_smtp: flag_at(doc, "is_smtp"@)->0,
                    is_verified: flag_at(doc, "is_verified"@)->0,
                    is_server_down: flag_at(doc, "is_server_down"@)->0,
                    is_greylisted: flag_at(doc, "is_greylisted"@)->0,
                    is_disposable: flag_at(doc, "is_disposable"@)->0,
                    is_suppressed: flag_at(doc, "is_suppressed"@)->0,
                    is_role: flag_at(doc, "is_role"@)->0,
                    is_high_risk: flag_at(doc, "is_high_risk"@)->0,
                    is_catchall: flag_at(doc, "is_catchall"@)->0,
                    is_dmarc_enforced: flag_at(doc, "is_dmarc_enforced"@)->0,
                    is_strict_spf: flag_at(doc, "is_strict_spf"@)->0,
                    website_exist: flag_at(doc, "website_exist"@)->0,
                    status: flag_at(doc, "status"@)->0,
                    mailboxvalidator_score: double_at(doc, "mailboxvalidator_score"@)->0,
                    time_taken: double_at(doc, "time_taken"@)->0,
                    credits_available: integer_at(doc, "credits_available"@)->0,
                },
            )
        } else {
            None
        }
    }

    /// The document that holds the record and nothing else.
    pub open spec fn to_json(self) -> JsonModel {
        JsonModel::Object(
            map![
                "email_address"@ => JsonModel::Text(self.email_address),
                "base_email_address"@ => JsonModel::Text(self.base_email_address),
                "domain"@ => JsonModel::Text(self.domain),
                "is_free"@ => flag_json(self.is_free),
                "is_syntax"@ => flag_json(self.is_syntax),
                "is_domain"@ => flag_json(self.is_domain),
                "is_smtp"@ => flag_json(self.is_smtp),
                "is_verified"@ => flag_json(self.is_verified),
                "is_server_down"@ => flag_json(self.is_server_down),
                "is_greylisted"@ => flag_json(self.is_greylisted),
                "is_disposable"@ => flag_json(self.is_disposable),
                "is_suppressed"@ => flag_json(self.is_suppressed),
                "is_role"@ => flag_json(self.is_role),
                "is_high_risk"@ => flag_json(self.is_high_risk),
                "is_catchall"@ => flag_json(self.is_catchall),
                "is_dmarc_enforced"@ => flag_json(self.is_dmarc_enforced),
                "is_strict_spf"@ => flag_json(self.is_strict_spf),
                "website_exist"@ => flag_json(self.website_exist),
                "status"@ => flag_json(self.status),
                "mailboxvalidator_score"@ => JsonModel::Real(self.mailboxvalidator_score.bits),
                "time_taken"@ => JsonModel::Real(self.time_taken.bits),
                "credits_available"@ => JsonModel::Integer(self.credits_available as int),
            ],
        )
    }
}

impl SingleEmailValidationRecord {
    /// Reads the record from a document: `None` where the document does not fit.
    pub fn from_json(doc: &serde_json::Value) -> (r: Option<SingleEmailValidationRecord>)
        ensures
            match r {
                Some(record) => SingleEmailValidationRecordView::of_json(json_model(*doc)) == Some(
                    record@,
                ),
                None => SingleEmailValidationRecordView::of_json(json_model(*doc)) is None,
            },
    {
        let email_address = read_text(doc, "email_address")?;
        let base_email_address = read_text(doc, "base_email_address")?;
        let domain = read_text(doc, "domain")?;
        let is_free = read_flag(doc, "is_free")?;
        let is_syntax = read_flag(doc, "is_syntax")?;
        let is_domain = read_flag(doc, "is_domain")?;
        let is_smtp = read_flag(doc, "is_smtp")?;
        let is_verified = read_flag(doc, "is_verified")?;
        let is_server_down = read_flag(doc, "is_server_down")?;
        let is_greylisted = read_flag(doc, "is_greylisted")?;
        let is_disposable = read_flag(doc, "is_disposable")?;
        let is_suppressed = read_flag(doc, "is_suppressed")?;
        let is_role = read_flag(doc, "is_role")?;
        let is_high_risk = read_flag(doc, "is_high_risk")?;
        let is_catchall = read_flag(doc, "is_catchall")?;
        let is_dmarc_enforced = read_flag(doc, "is_dmarc_enforced")?;
        let is_strict_spf = read_flag(doc, "is_strict_spf")?;
        let website_exist = read_flag(doc, "website_exist")?;
        let status = read_flag(doc, "status")?;
        let mailboxvalidator_score = read_double(doc, "mailboxvalidator_score")?;
        let time_taken = read_double(doc, "time_taken")?;
        let credits_available = read_integer(doc, "credits_available")?;
        Some(
            SingleEmailValidationRecord {
                email_address,
                base_email_address,
                domain,
                is_free,
                is_syntax,
                is_domain,
                is_smtp,
                is_verified,
                is_server_down,
                is_greylisted,
                is_disposable,
                is_suppressed,
                is_role,
                is_high_risk,
                is_catchall,
                is_dmarc_enforced,
                is_strict_spf,
                website_exist,
                status,
                mailboxvalidator_score,
                time_taken,
                credits_available,
            },
        )
    }
}

} // verus!
