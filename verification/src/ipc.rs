//! Structured errors returned to the UI: a stable code, a human message,
//! the raw underlying detail, and a tree of context values.

use vstd::prelude::*;

verus! {

/// A structured context value: enough of a value tree to carry hosts,
/// ports, fingerprints and nested records to the UI.
#[derive(Debug)]
pub enum ContextValue {
    Null,
    Bool(bool),
    UInt(u64),
    Str(String),
    Object(Vec<(String, ContextValue)>),
}

/// Whether a context value is the given text.
pub open spec fn is_ctx_str(v: ContextValue, s: Seq<char>) -> bool {
    v matches ContextValue::Str(x) && x@ == s
}

/// Whether a context value is the given number.
pub open spec fn is_ctx_uint(v: ContextValue, n: u64) -> bool {
    v matches ContextValue::UInt(x) && x == n
}

/// The error shape every command returns on failure.
#[derive(Debug)]
pub struct IpcError {
    pub code: String,
    pub message: String,
    pub raw: Option<String>,
    pub context: Option<ContextValue>,
}

impl IpcError {
    /// A bare error with a code and a message.
    pub fn new(code: &str, message: &str) -> (r: Self)
        ensures
            r.code@ == code@,
            r.message@ == message@,
            r.raw is None,
            r.context is None,
    {
        IpcError {
            code: code.to_owned(),
            message: message.to_owned(),
            raw: None,
            context: None,
        }
    }

    /// The same error carrying the raw underlying detail.
    pub fn with_raw(self, raw: String) -> (r: Self)
        ensures
            r.code == self.code,
            r.message == self.message,
            r.raw matches Some(x) && x == raw,
            r.context == self.context,
    {
        IpcError { raw: Some(raw), ..self }
    }

    /// The same error carrying structured context.
    pub fn with_context(self, context: ContextValue) -> (r: Self)
        ensures
            r.code == self.code,
            r.message == self.message,
            r.raw == self.raw,
            r.context matches Some(c) && c == context,
    {
        IpcError { context: Some(context), ..self }
    }
}

} // verus!
