//! The members of a response object, and the rules by which a record reads them.
//!
//! A record has four kinds of field. A string, an integer and a real number
//! must be present and of their type. A flag may be left out or be null: the
//! service leaves flags out when the account has run out of credits.

use vstd::prelude::*;
use crate::json::{double_of, json_model, value_as_f64_bits, value_get, JsonModel};

verus! {

/// A real number, held as the bits of its IEEE 754 double.
#[derive(Clone, Copy, Debug, PartialEq, Eq, Structural)]
pub struct Double {
    pub bits: u64,
}

/// What an object holds under one key, as far as a record looks at it.
#[derive(Clone, Debug, PartialEq, Eq)]
pub enum Member {
    /// The object has no such key, or the value is no object at all.
    Missing,
    Null,
    Flag(bool),
    /// A number: as an integer where it is one that fits `i64`, and as a double.
    Number { integer: Option<i64>, double: Double },
    Text(String),
    /// An array or an object.
    Other,
}

/// The mathematical value of a [`Member`].
pub ghost enum MemberView {
    Missing,
    Null,
    Flag(bool),
    Number { integer: Option<i64>, double: Double },
    Text(Seq<char>),
    Other,
}

impl View for Member {
    type V = MemberView;

    open spec fn view(&self) -> MemberView {
        match *self {
            Member::Missing => MemberView::Missing,
            Member::Null => MemberView::Null,
            Member::Flag(b) => MemberView::Flag(b),
            Member::Number { integer, double } => MemberView::Number { integer, double },
            Member::Text(s) => MemberView::Text(s@),
            Member::Other => MemberView::Other,
        }
    }
}

/// What a record sees of a JSON value that stands under a key.
pub open spec fn member_of_value(v: JsonModel) -> MemberView {
    match v {
        JsonModel::Null => MemberView::Null,
        JsonModel::Bool(b) => MemberView::Flag(b),
        JsonModel::Integer(n) => MemberView::Number {
            integer: if i64::MIN <= n <= i64::MAX {
                Some(n as i64)
            } else {
                None
            },
            double: Double { bits: double_of(n) },
        },
        JsonModel::Real(bits) => MemberView::Number { integer: None, double: Double { bits } },
        JsonModel::Text(s) => MemberView::Text(s),
        JsonModel::Array(_) => MemberView::Other,
        JsonModel::Object(_) => MemberView::Other,
    }
}

/// Whether a JSON value is an object that has the key.
pub open spec fn has_member(doc: JsonModel, key: Seq<char>) -> bool {
    doc matches JsonModel::Object(members) && members.contains_key(key)
}

/// What a record sees under a key of a JSON value.
pub open spec fn member_of(doc: JsonModel, key: Seq<char>) -> MemberView {
    if has_member(doc, key) {
        member_of_value(doc->Object_0[key])
    } else {
        MemberView::Missing
    }
}

/// The rule for a string field: the member must be a string.
pub open spec fn text_rule(m: MemberView) -> Option<Seq<char>> {
    match m {
        MemberView::Text(s) => Some(s),
        _ => None,
    }
}

/// The rule for a flag: a boolean is taken, a member that is missing or null
/// leaves the flag unset, and anything else does not fit.
pub open spec fn flag_rule(m: MemberView) -> Option<Option<bool>> {
    match m {
        MemberView::Flag(b) => Some(Some(b)),
        MemberView::Missing => Some(None),
        MemberView::Null => Some(None),
        _ => None,
    }
}

/// The rule for an integer field: the member must be an integer that fits `i64`.
pub open spec fn integer_rule(m: MemberView) -> Option<i64> {
    match m {
        MemberView::Number { integer: Some(n), double: _ } => Some(n),
        _ => None,
    }
}

/// The rule for a real field: the member must be a number, integer or not.
pub open spec fn double_rule(m: MemberView) -> Option<Double> {
    match m {
        MemberView::Number { integer: _, double } => Some(double),
        _ => None,
    }
}

impl Member {
    /// Looks at a JSON value that stands under a key.
    pub fn of_value(v: &serde_json::Value) -> (m: Member)
        ensures
            m@ == member_of_value(json_model(*v)),
    {
        if v.is_null() {
            return Member::Null;
        }
        if let Some(b) = v.as_bool() {
            return Member::Flag(b);
        }
        if let Some(s) = v.as_str() {
            return Member::Text(String::from_str(s));
        }
        match value_as_f64_bits(v) {
            Some(bits) => Member::Number { integer: v.as_i64(), double: Double { bits } },
            None => Member::Other,
        }
    }

    /// Looks under a key of a JSON value.
    pub fn read(doc: &serde_json::Value, key: &str) -> (m: Member)
        ensures
            m@ == member_of(json_model(*doc), key@),
    {
        match value_get(doc, key) {
            Some(v) => Member::of_value(v),
            None => Member::Missing,
        }
    }

    /// Reads the member as a string field.
    pub fn into_text(self) -> (r: Option<String>)
        ensures
            match r {
                Some(s) => text_rule(self@) == Some(s@),
                None => text_rule(self@) is None,
            },
    {
        match self {
            Member::Text(s) => Some(s),
            _ => None,
        }
    }

    /// Reads the member as a flag.
    pub fn to_flag(&self) -> (r: Option<Option<bool>>)
        ensures
            r == flag_rule(self@),
    {
        match self {
            Member::Flag(b) => Some(Some(*b)),
            Member::Missing => Some(None),
            Member::Null => Some(None),
            _ => None,
        }
    }

    /// Reads the member as an integer field.
    pub fn to_integer(&self) -> (r: Option<i64>)
        ensures
            r == integer_rule(self@),
    {
        match self {
            Member::Number { integer: Some(n), double: _ } => Some(*n),
            _ => None,
        }
    }

    /// Reads the member as a real field.
    pub fn to_double(&self) -> (r: Option<Double>)
        ensures
            r == double_rule(self@),
    {
        match self {
            Member::Number { integer: _, double } => Some(*double),
            _ => None,
        }
    }
}

} // verus!
