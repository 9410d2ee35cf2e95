//! Bounded diagnostic rings: recent trace events, connection attempts, and
//! panics, evicted oldest-first.

use vstd::prelude::*;
use crate::trace::TraceEvent;

verus! {

/// Capacity of the trace ring.
pub const TRACE_BUFFER_MAX: usize = 400;

/// Capacity of the connection-attempt ring.
pub const CONNECT_ATTEMPT_BUFFER_MAX: usize = 50;

/// Capacity of the panic ring.
pub const PANIC_BUFFER_MAX: usize = 10;

/// One captured panic.
pub struct PanicRecord {
    pub timestamp: u64,
    pub message: String,
    pub location: Option<String>,
    pub backtrace: Option<String>,
}

/// One connection attempt, with its transcript counters and outcome.
pub struct ConnectAttemptRecord {
    pub timestamp: u64,
    pub attempt_id: String,
    pub host: String,
    pub port: u16,
    pub username: String,
    pub addr: Option<String>,
    pub resolved_addrs: Vec<String>,
    pub client_id: Option<String>,
    pub server_id: Option<String>,
    pub bytes_written: u64,
    pub bytes_read: u64,
    pub outcome: String,
    pub outcome_detail: Option<String>,
}

/// The diagnostic state: three independent rings.
pub struct DiagnosticsState {
    pub traces: Vec<TraceEvent>,
    pub connect_attempts: Vec<ConnectAttemptRecord>,
    pub panics: Vec<PanicRecord>,
}

/// A ring after one bounded push: the value appended, with the oldest entry
/// shed first when the ring was full.
pub open spec fn pushed_bounded<T>(ring: Seq<T>, max: int, value: T) -> Seq<T> {
    if ring.len() >= max && ring.len() > 0 {
        ring.subrange(1, ring.len() as int).push(value)
    } else {
        ring.push(value)
    }
}

/// Append to a ring, shedding the oldest entry when the ring is full.
pub fn push_bounded<T>(deque: &mut Vec<T>, max: usize, value: T)
    ensures
        final(deque)@ == pushed_bounded(old(deque)@, max as int, value),
        old(deque)@.len() <= max && max > 0 ==> final(deque)@.len() <= max,
{
    if deque.len() >= max && deque.len() > 0 {
        let _ = deque.remove(0);
        proof {
            assert(deque@ =~= old(deque)@.subrange(1, old(deque)@.len() as int));
        }
    }
    deque.push(value);
}

impl DiagnosticsState {
    /// Empty rings.
    pub fn new() -> (r: Self)
        ensures
            r.traces@.len() == 0,
            r.connect_attempts@.len() == 0,
            r.panics@.len() == 0,
    {
        DiagnosticsState { traces: Vec::new(), connect_attempts: Vec::new(), panics: Vec::new() }
    }
}

/// Keep a copy of a trace event in the bounded trace ring.
pub fn record_trace(state: &mut DiagnosticsState, event: &TraceEvent)
    ensures
        final(state).traces@.len() <= pushed_bounded(
            old(state).traces@,
            TRACE_BUFFER_MAX as int,
            final(state).traces@.last(),
        ).len(),
        final(state).traces@.len() > 0,
        final(state).traces@.last()@ == event@,
        old(state).traces@.len() < TRACE_BUFFER_MAX ==> final(state).traces@.drop_last() == old(state).traces@,
        old(state).traces@.len() >= TRACE_BUFFER_MAX ==> final(state).traces@.drop_last() == old(state).traces@.subrange(1, old(state).traces@.len() as int),
        old(state).traces@.len() <= TRACE_BUFFER_MAX ==> final(state).traces@.len()
            <= TRACE_BUFFER_MAX,
        final(state).connect_attempts == old(state).connect_attempts,
        final(state).panics == old(state).panics,
{
    push_bounded(&mut state.traces, TRACE_BUFFER_MAX, event.duplicate());
    proof {
        if old(state).traces@.len() < TRACE_BUFFER_MAX {
            assert(state.traces@.drop_last() =~= old(state).traces@);
        } else {
            assert(state.traces@.drop_last() =~= old(state).traces@.subrange(
                1,
                old(state).traces@.len() as int,
            ));
        }
    }
}

/// Keep a connection-attempt record in its bounded ring.
pub fn record_connect_attempt(state: &mut DiagnosticsState, record: ConnectAttemptRecord)
    ensures
        final(state).connect_attempts@ == pushed_bounded(
            old(state).connect_attempts@,
            CONNECT_ATTEMPT_BUFFER_MAX as int,
            record,
        ),
        old(state).connect_attempts@.len() <= CONNECT_ATTEMPT_BUFFER_MAX ==> final(state).connect_attempts@.len() <= CONNECT_ATTEMPT_BUFFER_MAX,
        final(state).traces == old(state).traces,
        final(state).panics == old(state).panics,
{
    push_bounded(&mut state.connect_attempts, CONNECT_ATTEMPT_BUFFER_MAX, record);
}

/// Keep a panic record in its bounded ring.
pub fn record_panic(state: &mut DiagnosticsState, record: PanicRecord)
    ensures
        final(state).panics@ == pushed_bounded(
            old(state).panics@,
            PANIC_BUFFER_MAX as int,
            record,
        ),
        old(state).panics@.len() <= PANIC_BUFFER_MAX ==> final(state).panics@.len()
            <= PANIC_BUFFER_MAX,
        final(state).traces == old(state).traces,
        final(state).connect_attempts == old(state).connect_attempts,
{
    push_bounded(&mut state.panics, PANIC_BUFFER_MAX, record);
}

} // verus!
