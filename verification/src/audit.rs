//! Audit events for MCP tool invocations, with SHA-256 fingerprints of the
//! parameters in place of the parameters themselves. Writing events out is
//! the application's.
use vstd::prelude::*;
use vstd::string::StringExecFns;
use vstd::utf8::encode_utf8;
use sha2::{Digest, Sha256};
use std::sync::Arc;
use crate::text::{hex_encode, hex_lower, is_lower_hex_digit, lemma_hex_lower_digits, lemma_hex_lower_len};
use crate::time::{clock_gave, rfc3339_text, valid_instant, Timestamp};

verus! {

/// The SHA-256 digest of `data`.
pub uninterp spec fn sha256_digest(data: Seq<u8>) -> Seq<u8>;

/// SHA-256 of `data` (`sha2::Sha256::digest`). Trusted: the result is the
/// digest `sha256_digest` names, and it is 32 bytes long (the output size of
/// `Sha256`).
#[verifier::external_body]
fn sha256(data: &[u8]) -> (d: Vec<u8>)
    ensures
        d@ == sha256_digest(data@),
        d@.len() == 32,
{
    Sha256::digest(data).to_vec()
}

/// The fingerprint of a text: the lowercase hex SHA-256 of its UTF-8 bytes.
pub open spec fn fingerprint_of(text: Seq<char>) -> Seq<char> {
    hex_lower(sha256_digest(encode_utf8(text)))
}

/// The fingerprint of `data`: the lowercase hex SHA-256 of its UTF-8 bytes,
/// 64 characters long.
pub fn fingerprint(data: &str) -> (s: String)
    ensures
        s@ == fingerprint_of(data@),
        s@.len() == 64,
        forall|i: int| 0 <= i < 64 ==> is_lower_hex_digit(#[trigger] s@[i]),
{
    let digest = sha256(data.as_bytes());
    proof {
        lemma_hex_lower_len(digest@);
        lemma_hex_lower_digits(digest@);
    }
    hex_encode(digest.as_slice())
}

/// A structured audit event for one MCP tool invocation.
#[derive(Debug, Clone, PartialEq, Eq)]
pub struct AuditEvent {
    pub timestamp: String,
    pub event_type: String,
    pub tool_name: String,
    pub tool_version: String,
    pub caller_identity: String,
    pub authorization_scope: String,
    pub params_fingerprint: String,
    pub result_status: String,
    pub result_bytes: usize,
    pub correlation_id: String,
    pub error: Option<String>,
}

/// Whether `e` is the invocation event stamped at the instant `at`: the RFC
/// 3339 text of `at`, type `mcp.tool.invoke`, the given tool, version, caller
/// and scope, the fingerprint of the parameters (never the parameters
/// themselves), status `pending`, no bytes, the given correlation id, no
/// error.
pub open spec fn is_invoke_record(
    e: AuditEvent,
    at: (int, int),
    tool_name: Seq<char>,
    tool_version: Seq<char>,
    caller: Seq<char>,
    scope: Seq<char>,
    params_json: Seq<char>,
    correlation_id: Seq<char>,
) -> bool {
    &&& e.timestamp@ == rfc3339_text(at.0, at.1)
    &&& e.event_type@ == "mcp.tool.invoke"@
    &&& e.tool_name@ == tool_name
    &&& e.tool_version@ == tool_version
    &&& e.caller_identity@ == caller
    &&& e.authorization_scope@ == scope
    &&& e.params_fingerprint@ == fingerprint_of(params_json)
    &&& e.result_status@ == "pending"@
    &&& e.result_bytes == 0
    &&& e.correlation_id@ == correlation_id
    &&& e.error is None
}

/// Whether `e` is `invoked` with a result: type `mcp.tool.result`, the
/// status `status`, the byte count and the error; every other field kept.
pub open spec fn is_result_record(
    e: AuditEvent,
    invoked: AuditEvent,
    status: Seq<char>,
    result_bytes: usize,
    error: Option<String>,
) -> bool {
    &&& e.event_type@ == "mcp.tool.result"@
    &&& e.result_status@ == status
    &&& e.result_bytes == result_bytes
    &&& e.error == error
    &&& e.timestamp == invoked.timestamp
    &&& e.tool_name == invoked.tool_name
    &&& e.tool_version == invoked.tool_version
    &&& e.caller_identity == invoked.caller_identity
    &&& e.authorization_scope == invoked.authorization_scope
    &&& e.params_fingerprint == invoked.params_fingerprint
    &&& e.correlation_id == invoked.correlation_id
}

/// Whether two events hold the same texts and numbers in every field.
pub open spec fn same_record(a: AuditEvent, b: AuditEvent) -> bool {
    &&& a.timestamp@ == b.timestamp@
    &&& a.event_type@ == b.event_type@
    &&& a.tool_name@ == b.tool_name@
    &&& a.tool_version@ == b.tool_version@
    &&& a.caller_identity@ == b.caller_identity@
    &&& a.authorization_scope@ == b.authorization_scope@
    &&& a.params_fingerprint@ == b.params_fingerprint@
    &&& a.result_status@ == b.result_status@
    &&& a.result_bytes == b.result_bytes
    &&& a.correlation_id@ == b.correlation_id@
    &&& match (a.error, b.error) {
        (Some(x), Some(y)) => x@ == y@,
        (None, None) => true,
        _ => false,
    }
}

/// Adding a result replaces any earlier one: a result added to an event that
/// already has one gives the same record as that result added to the event
/// itself.
pub proof fn lemma_result_replaces_result(
    e: AuditEvent,
    first: AuditEvent,
    second: AuditEvent,
    direct: AuditEvent,
    status1: Seq<char>,
    bytes1: usize,
    error1: Option<String>,
    status2: Seq<char>,
    bytes2: usize,
    error2: Option<String>,
)
    requires
        is_result_record(first, e, status1, bytes1, error1),
        is_result_record(second, first, status2, bytes2, error2),
        is_result_record(direct, e, status2, bytes2, error2),
    ensures
        same_record(second, direct),
{
}

impl AuditEvent {
    /// The event recorded before a tool runs, stamped at `at` (see
    /// `is_invoke_record`).
    pub fn invoke_at(
        at: &Timestamp,
        tool_name: &str,
        tool_version: &str,
        caller: &str,
        scope: &str,
        params_json: &str,
        correlation_id: &str,
    ) -> (e: AuditEvent)
        ensures
            is_invoke_record(
                e,
                at@,
                tool_name@,
                tool_version@,
                caller@,
                scope@,
                params_json@,
                correlation_id@,
            ),
    {
        AuditEvent {
            timestamp: at.to_rfc3339(),
            event_type: String::from_str("mcp.tool.invoke"),
            tool_name: String::from_str(tool_name),
            tool_version: String::from_str(tool_version),
            caller_identity: String::from_str(caller),
            authorization_scope: String::from_str(scope),
            params_fingerprint: fingerprint(params_json),
            result_status: String::from_str("pending"),
            result_bytes: 0,
            correlation_id: String::from_str(correlation_id),
            error: None,
        }
    }

    /// The event recorded before a tool runs, stamped with the current time:
    /// the clock is read (`Timestamp::now`) and the event built by
    /// `invoke_at` at that reading (`clock_gave`). `None` when the system clock
    /// gives no current time.
    pub fn invoke(
        tool_name: &str,
        tool_version: &str,
        caller: &str,
        scope: &str,
        params_json: &str,
        correlation_id: &str,
    ) -> (r: Option<AuditEvent>)
        ensures
            r matches Some(e) ==> exists|at: Timestamp|
                #![trigger clock_gave(at)]
                clock_gave(at) && at@.0 >= 0 && valid_instant(at@.0, at@.1) && is_invoke_record(
                    e,
                    at@,
                    tool_name@,
                    tool_version@,
                    caller@,
                    scope@,
                    params_json@,
                    correlation_id@,
                ),
    {
        match Timestamp::now() {
            Some(now) => {
                let e = AuditEvent::invoke_at(
                    &now,
                    tool_name,
                    tool_version,
                    caller,
                    scope,
                    params_json,
                    correlation_id,
                );
                assert(clock_gave(now));
                Some(e)
            },
            None => None,
        }
    }

    /// A copy of the event.
    pub fn duplicate(&self) -> (e: AuditEvent)
        ensures
            e == *self,
    {
        AuditEvent {
            timestamp: self.timestamp.clone(),
            event_type: self.event_type.clone(),
            tool_name: self.tool_name.clone(),
            tool_version: self.tool_version.clone(),
            caller_identity: self.caller_identity.clone(),
            authorization_scope: self.authorization_scope.clone(),
            params_fingerprint: self.params_fingerprint.clone(),
            result_status: self.result_status.clone(),
            result_bytes: self.result_bytes,
            correlation_id: self.correlation_id.clone(),
            error: match &self.error {
                Some(m) => Some(m.clone()),
                None => None,
            },
        }
    }

    /// The event recorded after the tool ran: type `mcp.tool.result`, with its
    /// status, byte count and error; every other field is kept (see
    /// `is_result_record`).
    pub fn with_result(self, status: &str, result_bytes: usize, error: Option<String>) -> (e:
        AuditEvent)
        ensures
            is_result_record(e, self, status@, result_bytes, error),
    {
        let mut e = self;
        e.event_type = String::from_str("mcp.tool.result");
        e.result_status = String::from_str(status);
        e.result_bytes = result_bytes;
        e.error = error;
        e
    }
}


/// A destination for audit events.
pub trait AuditSink: Send + Sync {
    /// Records one event.
    fn emit(&self, event: &AuditEvent);
}

/// Sends each event to several sinks, in order.
pub struct MultiAuditSink {
    sinks: Vec<Arc<dyn AuditSink>>,
}

impl MultiAuditSink {
    /// The sinks forwarded to, in order.
    pub closed spec fn targets(&self) -> Seq<Arc<dyn AuditSink>> {
        self.sinks@
    }

    /// A sink that forwards to `sinks`.
    pub fn new(sinks: Vec<Arc<dyn AuditSink>>) -> (m: MultiAuditSink)
        ensures
            m.targets() == sinks@,
    {
        MultiAuditSink { sinks }
    }
}

/// Whether `sink` was handed `event`: a call of its `emit` with that event
/// returned.
pub open spec fn delivered<S: AuditSink + ?Sized>(sink: &S, event: &AuditEvent) -> bool {
    call_ensures(S::emit, (sink, event), ())
}

/// Hands `event` to `sink`.
fn hand_to<S: AuditSink + ?Sized>(sink: &S, event: &AuditEvent)
    ensures
        delivered(sink, event),
{
    sink.emit(event)
}

impl AuditSink for MultiAuditSink {
    fn emit(&self, event: &AuditEvent)
        ensures
            forall|i: int| 0 <= i < self.targets().len() ==> delivered(&*self.targets()[i], event),
    {
        let mut i: usize = 0;
        while i < self.sinks.len()
            invariant
                i <= self.sinks@.len(),
                forall|j: int| 0 <= j < i ==> delivered(&*self.sinks@[j], event),
            decreases self.sinks.len() - i,
        {
            hand_to(&*self.sinks[i], event);
            i = i + 1;
        }
    }
}

} // verus!
