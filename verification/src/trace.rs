//! Connection tracing: runtime-togglable, environment-seeded trace events
//! carrying a category, a step, a message, and optional detail.

use vstd::prelude::*;
use crate::text::{lower_seq, str_eq, to_lower_string};
use crate::known_hosts::now_ms;

verus! {

/// Whether tracing is on: a startup setting read from the environment, and
/// a runtime toggle.
pub struct TraceState {
    pub env_enabled: bool,
    pub runtime_enabled: bool,
}

impl TraceState {
    /// The startup state: the environment setting, runtime toggle off.
    pub fn new(env_enabled: bool) -> (r: Self)
        ensures
            r.env_enabled == env_enabled,
            !r.runtime_enabled,
    {
        TraceState { env_enabled, runtime_enabled: false }
    }

    /// Whether trace events should be emitted.
    pub fn is_trace_enabled(&self) -> (r: bool)
        ensures
            r == (self.env_enabled || self.runtime_enabled),
    {
        self.env_enabled || self.runtime_enabled
    }
}

/// Whether an environment variable's value turns tracing on: `1`, or any
/// casing of `true`.
pub open spec fn env_value_enables_trace(v: Seq<char>) -> bool {
    v == "1"@ || lower_seq(v) == "true"@
}

/// Interpret the tracing environment variable.
pub fn parse_trace_env(value: Option<&String>) -> (r: bool)
    ensures
        match value {
            Some(v) => r == env_value_enables_trace(v@),
            None => !r,
        },
{
    match value {
        Some(v) => {
            if str_eq(v.as_str(), "1") {
                true
            } else {
                let lowered = to_lower_string(v.as_str());
                str_eq(lowered.as_str(), "true")
            }
        },
        None => false,
    }
}

/// Turn tracing on at runtime.
pub fn enable_trace(t: &mut TraceState)
    ensures
        final(t).runtime_enabled,
        final(t).env_enabled == old(t).env_enabled,
{
    t.runtime_enabled = true;
}

/// Turn tracing off at runtime; the environment setting still applies.
pub fn disable_trace(t: &mut TraceState)
    ensures
        !final(t).runtime_enabled,
        final(t).env_enabled == old(t).env_enabled,
{
    t.runtime_enabled = false;
}

/// One trace event on its way to the UI.
pub struct TraceEvent {
    pub timestamp: u64,
    pub category: String,
    pub step: String,
    pub message: String,
    pub detail: Option<String>,
    pub is_error: bool,
}

/// Ghost image of a trace event.
pub ghost struct TraceEventV {
    pub timestamp: u64,
    pub category: Seq<char>,
    pub step: Seq<char>,
    pub message: Seq<char>,
    pub detail: Option<Seq<char>>,
    pub is_error: bool,
}

impl View for TraceEvent {
    type V = TraceEventV;

    open spec fn view(&self) -> TraceEventV {
        TraceEventV {
            timestamp: self.timestamp,
            category: self.category@,
            step: self.step@,
            message: self.message@,
            detail: crate::text::opt_str_view(self.detail),
            is_error: self.is_error,
        }
    }
}

impl TraceEvent {
    /// A plain event, stamped with the current time.
    pub fn new(category: &str, step: &str, message: &str) -> (r: Self)
        ensures
            r.category@ == category@,
            r.step@ == step@,
            r.message@ == message@,
            r.detail is None,
            !r.is_error,
    {
        TraceEvent {
            timestamp: now_ms(),
            category: category.to_owned(),
            step: step.to_owned(),
            message: message.to_owned(),
            detail: None,
            is_error: false,
        }
    }

    /// The same event with a detail attached.
    pub fn with_detail(self, detail: String) -> (r: Self)
        ensures
            r.timestamp == self.timestamp,
            r.category == self.category,
            r.step == self.step,
            r.message == self.message,
            r.detail matches Some(d) && d == detail,
            r.is_error == self.is_error,
    {
        TraceEvent { detail: Some(detail), ..self }
    }

    /// The same event marked as an error.
    pub fn error(self) -> (r: Self)
        ensures
            r.timestamp == self.timestamp,
            r.category == self.category,
            r.step == self.step,
            r.message == self.message,
            r.detail == self.detail,
            r.is_error,
    {
        TraceEvent { is_error: true, ..self }
    }

    /// An exact copy of the event.
    pub fn duplicate(&self) -> (r: Self)
        ensures
            r@ == self@,
    {
        TraceEvent {
            timestamp: self.timestamp,
            category: self.category.clone(),
            step: self.step.clone(),
            message: self.message.clone(),
            detail: crate::text::clone_opt_string(&self.detail),
            is_error: self.is_error,
        }
    }
}

} // verus!
