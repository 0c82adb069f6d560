use tempcheck::audit::{fingerprint, AuditEvent};
use tempcheck::mcp::server::{
    audit_invoke_event, audit_invoke_event_at, begin_analyze_temperature, begin_current_temperature,
    AnalyzeAction, CallPhase, CurrentAction, GetCurrentTemperatureParams,
};
use tempcheck::time::Timestamp;

#[test]
fn fingerprint_is_deterministic() {
    let a = fingerprint("{\"sensor\":\"cpu\"}");
    let b = fingerprint("{\"sensor\":\"cpu\"}");
    let c = fingerprint("{\"sensor\":\"gpu\"}");
    assert_eq!(a, b);
    assert_ne!(a, c);
    assert_eq!(a.len(), 64);
}

#[test]
fn fingerprint_of_empty_text_is_sha256_of_nothing() {
    assert_eq!(
        fingerprint(""),
        "e3b0c44298fc1c149afbf4c8996fb92427ae41e4649b934ca495991b7852b855"
    );
    assert_eq!(
        fingerprint("abc"),
        "ba7816bf8f01cfea414140de5dae2223b00361a396177a9cb410ff61f20015ad"
    );
}

#[test]
fn audit_event_serializes_required_fields() {
    let event = AuditEvent::invoke(
        "get_current_temperature",
        "1",
        "agent:test",
        "temperature:read",
        "{}",
        "corr-1",
    )
    .unwrap()
    .with_result("success", 128, None);

    assert_eq!(event.event_type, "mcp.tool.result");
    assert_eq!(event.tool_name, "get_current_temperature");
    assert_eq!(event.result_status, "success");
    assert_eq!(event.result_bytes, 128);
    assert_eq!(event.caller_identity, "agent:test");
    assert_eq!(event.authorization_scope, "temperature:read");
    assert_eq!(event.correlation_id, "corr-1");
    assert_eq!(event.params_fingerprint, fingerprint("{}"));
    assert!(event.error.is_none());
}

#[test]
fn invoke_event_is_pending_with_fingerprint() {
    let event = AuditEvent::invoke("t", "1", "c", "s", "{\"auth_token\":\"x\"}", "id").unwrap();
    assert_eq!(event.event_type, "mcp.tool.invoke");
    assert_eq!(event.result_status, "pending");
    assert_eq!(event.result_bytes, 0);
    assert!(!event.params_fingerprint.contains("auth_token"));
    assert_eq!(event.params_fingerprint.len(), 64);
    assert!(event.timestamp.ends_with("+00:00"));
}

#[test]
fn result_event_keeps_identity_and_records_error() {
    let invoked = AuditEvent::invoke("t", "1", "c", "s", "{}", "id-7").unwrap();
    let done = invoked.clone().with_result("error", 0, Some("boom".to_string()));
    assert_eq!(done.event_type, "mcp.tool.result");
    assert_eq!(done.result_status, "error");
    assert_eq!(done.error, Some("boom".to_string()));
    assert_eq!(done.timestamp, invoked.timestamp);
    assert_eq!(done.correlation_id, invoked.correlation_id);
    assert_eq!(done.params_fingerprint, invoked.params_fingerprint);
    assert_eq!(done.tool_name, invoked.tool_name);
}

#[test]
fn mcp_invoke_event_builds_v4_correlation_id() {
    let a = audit_invoke_event("analyze_temperature", "1", "{}", [1u8; 16]).unwrap();
    let b = audit_invoke_event("analyze_temperature", "1", "{}", [0xffu8; 16]).unwrap();
    let z = audit_invoke_event("analyze_temperature", "1", "{}", [0u8; 16]).unwrap();
    assert_eq!(a.caller_identity, "mcp-client");
    assert_eq!(a.authorization_scope, "temperature:read");
    assert_eq!(a.correlation_id, "01010101-0101-4101-8101-010101010101");
    assert_eq!(b.correlation_id, "ffffffff-ffff-4fff-bfff-ffffffffffff");
    assert_eq!(z.correlation_id, "00000000-0000-4000-8000-000000000000");
    let random = [0x12u8, 0x34, 0x56, 0x78, 0x9a, 0xbc, 0xde, 0xf0, 0x0f, 0xed, 0xcb, 0xa9, 0x87, 0x65, 0x43, 0x21];
    let c = audit_invoke_event("t", "1", "{}", random).unwrap();
    assert_eq!(c.correlation_id, "12345678-9abc-4ef0-8fed-cba987654321");
    for (i, ch) in c.correlation_id.chars().enumerate() {
        if [8, 13, 18, 23].contains(&i) {
            assert_eq!(ch, '-');
        } else {
            assert!(ch.is_ascii_hexdigit() && !ch.is_ascii_uppercase(), "{ch:?} at {i}");
        }
    }
}

use std::sync::{Arc, Mutex};
use tempcheck::audit::{AuditSink, MultiAuditSink};
use tempcheck::mcp::server::tool_result_event;

struct RecordingSink {
    seen: Mutex<Vec<String>>,
}

impl AuditSink for RecordingSink {
    fn emit(&self, event: &AuditEvent) {
        self.seen.lock().unwrap().push(event.event_type.clone());
    }
}

#[test]
fn multi_sink_emits_to_all() {
    let a = Arc::new(RecordingSink { seen: Mutex::new(Vec::new()) });
    let b = Arc::new(RecordingSink { seen: Mutex::new(Vec::new()) });
    let multi = MultiAuditSink::new(vec![a.clone(), b.clone()]);
    let event = AuditEvent::invoke("t", "1", "c", "s", "{}", "id").unwrap();
    multi.emit(&event);
    assert_eq!(*a.seen.lock().unwrap(), vec!["mcp.tool.invoke".to_string()]);
    assert_eq!(*b.seen.lock().unwrap(), vec!["mcp.tool.invoke".to_string()]);
}

#[test]
fn tool_result_event_records_success_bytes_and_errors() {
    let invoked = AuditEvent::invoke("t", "1", "c", "s", "{}", "id").unwrap();
    let ok = tool_result_event(invoked.clone(), &Ok("[\"é\"]".to_string()));
    assert_eq!(ok.result_status, "success");
    assert_eq!(ok.result_bytes, 6);
    assert!(ok.error.is_none());
    let err = tool_result_event(invoked.clone(), &Err("-32602: bad".to_string()));
    assert_eq!(err.result_status, "error");
    assert_eq!(err.result_bytes, 0);
    assert_eq!(err.error, Some("-32602: bad".to_string()));
    assert_eq!(err.correlation_id, invoked.correlation_id);
}

#[test]
fn fingerprint_is_lowercase_hex() {
    let f = fingerprint("{\"auth_token\":\"SECRET-REDACTED\"}");
    assert_eq!(f.len(), 64);
    assert!(f.chars().all(|c| c.is_ascii_digit() || ('a'..='f').contains(&c)));
}

#[test]
fn invoke_at_stamps_the_given_instant() {
    let at = Timestamp::from_unix(1_700_000_000, 5).unwrap();
    let e = AuditEvent::invoke_at(&at, "t", "1", "c", "s", "{}", "id");
    assert_eq!(e.timestamp, "2023-11-14T22:13:20.000000005+00:00");
    assert_eq!(e.event_type, "mcp.tool.invoke");
    assert_eq!(e.result_status, "pending");
    assert_eq!(e.correlation_id, "id");
    assert_eq!(e.params_fingerprint, fingerprint("{}"));
    let epoch = AuditEvent::invoke_at(&Timestamp::epoch(), "t", "1", "c", "s", "{}", "id");
    assert_eq!(epoch.timestamp, "1970-01-01T00:00:00+00:00");
}

#[test]
fn tool_invoke_event_at_and_begin() {
    let at = Timestamp::epoch();
    let e = audit_invoke_event_at(&at, "get_current_temperature", "1", "{}", [0u8; 16]);
    assert_eq!(e.timestamp, "1970-01-01T00:00:00+00:00");
    assert_eq!(e.caller_identity, "mcp-client");
    assert_eq!(e.correlation_id, "00000000-0000-4000-8000-000000000000");
    let (call, action) = begin_current_temperature(
        e.clone(),
        &GetCurrentTemperatureParams { auth_token: None },
        &Some("secret".to_string()),
    );
    assert_eq!(call.phase, CallPhase::RecordingInvoke);
    assert!(call.authorization.is_err());
    assert!(matches!(action, CurrentAction::Record(r) if r == e));
    let (call, action) = begin_analyze_temperature(e.clone(), Err(tempcheck::mcp::server::ToolError {
        kind: tempcheck::mcp::server::ToolErrorKind::InvalidParams,
        message: "m".to_string(),
    }));
    assert_eq!(call.invoked, e);
    assert!(matches!(action, AnalyzeAction::Record(r) if r == e));
}

#[test]
fn a_result_replaces_an_earlier_result() {
    let e = AuditEvent::invoke_at(&Timestamp::epoch(), "t", "1", "c", "s", "{}", "id");
    let twice = e.clone().with_result("error", 0, Some("x".to_string())).with_result("success", 9, None);
    let once = e.with_result("success", 9, None);
    assert_eq!(twice, once);
}
