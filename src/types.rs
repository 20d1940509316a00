//! The trace record and the values it is made of.
use vstd::prelude::*;

verus! {

/// Upper bound (exclusive) of the sub-second part of a timestamp; values from
/// one billion up stand for a leap second.
pub const NANOS_BOUND: u32 = 2_000_000_000;

/// An instant in UTC: whole seconds since the Unix epoch and the nanoseconds
/// past that second.
#[derive(Clone, Copy, Debug, PartialEq, Eq, Structural)]
pub struct Timestamp {
    pub secs: i64,
    pub nanos: u32,
}

impl Timestamp {
    pub open spec fn wf(&self) -> bool {
        self.nanos < NANOS_BOUND
    }
}

/// A structured value of a trace: either a one-entry object `{key: text}`
/// whose value is a string, or any other JSON value, held as its encoding.
#[derive(Clone, Debug)]
pub enum Payload {
    Text { key: String, text: String },
    Json(String),
}

impl Payload {
    /// `self` is the object `{key: text}`.
    pub open spec fn is_entry(&self, key: Seq<char>, text: Seq<char>) -> bool {
        match self {
            Payload::Text { key: k, text: t } => k@ == key && t@ == text,
            Payload::Json(_) => false,
        }
    }

    /// The object `{key: text}`.
    pub fn entry(key: &str, text: String) -> (r: Payload)
        ensures
            r.is_entry(key@, text@),
    {
        Payload::Text { key: key.to_string(), text }
    }

    /// An equal copy.
    pub fn snapshot(&self) -> (r: Payload)
        ensures
            r == *self,
    {
        match self {
            Payload::Text { key, text } => Payload::Text { key: key.clone(), text: text.clone() },
            Payload::Json(s) => Payload::Json(s.clone()),
        }
    }
}

/// The record of one instrumented call.
#[derive(Clone, Debug)]
pub struct Trace {
    pub id: String,
    pub request: Payload,
    pub response: Payload,
    pub created_at: Timestamp,
    pub updated_at: Timestamp,
}

impl Trace {
    /// An equal copy.
    pub fn snapshot(&self) -> (r: Trace)
        ensures
            r == *self,
    {
        Trace {
            id: self.id.clone(),
            request: self.request.snapshot(),
            response: self.response.snapshot(),
            created_at: self.created_at,
            updated_at: self.updated_at,
        }
    }
}

} // verus!
