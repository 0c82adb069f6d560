//! Rules of the MCP tools `get_current_temperature@1` and
//! `analyze_temperature@1`: authorization, the analysis window, the response
//! cap, the mapping of failures to tool errors, and the audit events. The
//! transport, the database and the sensors are the application's.
use vstd::prelude::*;
use vstd::string::StringExecFns;
use uuid::Builder;
use rmcp::model::ErrorData as McpError;
use crate::audit::{fingerprint_of, is_invoke_record, AuditEvent};
use vstd::utf8::encode_utf8;
use crate::collector::{collector_error_text, CollectorError};
use crate::config::MAX_RESPONSE_BYTES;
use crate::storage::{store_error_text, StoreError};
use crate::text::{
    contains, decimal_string, decimal_text, has_substring, hex_digit, hex_lower, is_lower_hex_digit,
    lemma_hex_lower_digits, lemma_hex_lower_index, lemma_hex_lower_len, str_eq,
};
use crate::time::{
    instant_lt, lemma_minus_hours_earlier, minus_hours_spec, rfc3339_instant, rfc3339_text,
    valid_instant, clock_gave, Timestamp, MIN_TIMESTAMP_SECS, RFC3339_MIN_SECS,
};

verus! {

/// Name of the live-reading tool.
pub const TOOL_GET_CURRENT: &'static str = "get_current_temperature";

/// Version of the live-reading tool.
pub const TOOL_GET_CURRENT_VERSION: &'static str = "1";

/// Name of the history-analysis tool.
pub const TOOL_ANALYZE: &'static str = "analyze_temperature";

/// Version of the history-analysis tool.
pub const TOOL_ANALYZE_VERSION: &'static str = "1";

/// Hours covered by an analysis whose start is not given.
pub const DEFAULT_ANALYSIS_HOURS: i64 = 24;

/// Parameters of `analyze_temperature`.
#[derive(Debug, Clone)]
pub struct AnalyzeTemperatureParams {
    /// ISO-8601 start time (inclusive). Defaults to 24 hours before the end.
    pub from: Option<String>,
    /// ISO-8601 end time (inclusive). Defaults to now.
    pub to: Option<String>,
    /// Filter to a specific sensor name (e.g. thermal_zone0:cpu).
    pub sensor: Option<String>,
    /// Bearer token when the server has one configured.
    pub auth_token: Option<String>,
}

/// Parameters of `get_current_temperature`.
#[derive(Debug, Clone)]
pub struct GetCurrentTemperatureParams {
    /// Bearer token when the server has one configured.
    pub auth_token: Option<String>,
}

/// The two kinds of error a tool call answers with.
#[derive(Debug, Clone, Copy, PartialEq, Eq, Structural)]
pub enum ToolErrorKind {
    /// The caller's request is at fault.
    InvalidParams,
    /// The server failed.
    Internal,
}

/// A tool call's error: its kind and message.
#[derive(Debug, Clone, PartialEq, Eq)]
pub struct ToolError {
    pub kind: ToolErrorKind,
    pub message: String,
}

/// The view of an optional string.
pub open spec fn opt_text(o: Option<String>) -> Option<Seq<char>> {
    match o {
        Some(s) => Some(s@),
        None => None,
    }
}

/// Whether a call that carries `token` may proceed: always when the server
/// has no token configured; otherwise only with exactly that token.
pub open spec fn authorized(expected: Option<Seq<char>>, token: Option<Seq<char>>) -> bool {
    match expected {
        None => true,
        Some(e) => token == Some(e),
    }
}

/// Authorization fails closed: once a token is configured, a call is let
/// through with exactly that token and with nothing else, a missing token
/// included; with none configured, every call is let through.
pub proof fn lemma_authorization_fails_closed(
    expected: Option<Seq<char>>,
    token: Option<Seq<char>>,
)
    ensures
        expected matches Some(e) ==> (authorized(expected, token) <==> token == Some(e)),
        expected matches Some(e) ==> !authorized(expected, None),
        expected is None ==> authorized(expected, token),
{
}

/// Checks the caller's token. Refused calls get `InvalidParams` with the
/// message `insufficient scope: valid auth_token required`.
pub fn authorize(expected_token: &Option<String>, token: &Option<String>) -> (r: Result<
    (),
    ToolError,
>)
    ensures
        r is Ok <==> authorized(opt_text(*expected_token), opt_text(*token)),
        r matches Err(e) ==> e.kind == ToolErrorKind::InvalidParams && e.message@
            == "insufficient scope: valid auth_token required"@,
{
    match expected_token {
        None => Ok(()),
        Some(expected) => {
            if let Some(t) = token {
                if str_eq(t.as_str(), expected.as_str()) {
                    return Ok(());
                }
            }
            Err(
                ToolError {
                    kind: ToolErrorKind::InvalidParams,
                    message: String::from_str("insufficient scope: valid auth_token required"),
                },
            )
        },
    }
}

/// The length in bytes of a text's UTF-8 encoding, as a `usize`.
pub open spec fn utf8_len(text: Seq<char>) -> usize {
    encode_utf8(text).len() as usize
}

/// The message of a response over the cap.
pub open spec fn cap_exceeded_text() -> Seq<char> {
    "response exceeds "@ + decimal_text(MAX_RESPONSE_BYTES as nat) + " byte cap"@
}

/// A response is sent only if its UTF-8 text is at most `MAX_RESPONSE_BYTES`
/// bytes long; a longer one is an internal error.
pub fn cap_response(json: &str) -> (r: Result<String, ToolError>)
    ensures
        r is Ok <==> utf8_len(json@) <= MAX_RESPONSE_BYTES,
        r matches Ok(s) ==> s@ == json@,
        r matches Err(e) ==> e.kind == ToolErrorKind::Internal && e.message@
            == cap_exceeded_text(),
{
    if json.len() > MAX_RESPONSE_BYTES {
        return Err(
            ToolError {
                kind: ToolErrorKind::Internal,
                message: String::from_str("response exceeds ").concat(
                    decimal_string(MAX_RESPONSE_BYTES).as_str(),
                ).concat(" byte cap"),
            },
        );
    }
    Ok(json.to_owned())
}

/// The message of a refused timestamp.
pub open spec fn bad_timestamp_text() -> Seq<char> {
    "invalid ISO-8601 timestamp"@
}

/// The answer to a parsed timestamp parameter: the instant, or `InvalidParams`
/// when the text was not RFC 3339.
pub fn parsed_time(parsed: Option<Timestamp>) -> (r: Result<Timestamp, ToolError>)
    ensures
        parsed matches Some(t) ==> r == Ok::<Timestamp, ToolError>(t),
        parsed is None ==> (r matches Err(e) && e.kind == ToolErrorKind::InvalidParams && e.message@
            == bad_timestamp_text()),
{
    match parsed {
        Some(t) => Ok(t),
        None => Err(
            ToolError {
                kind: ToolErrorKind::InvalidParams,
                message: String::from_str("invalid ISO-8601 timestamp"),
            },
        ),
    }
}

/// Parses a timestamp parameter (RFC 3339).
pub fn parse_time(text: &str) -> (r: Result<Timestamp, ToolError>)
    ensures
        rfc3339_instant(text@) matches Some(i) ==> (r matches Ok(t) && t@ == i),
        rfc3339_instant(text@) is None ==> (r matches Err(e) && e.kind
            == ToolErrorKind::InvalidParams && e.message@ == bad_timestamp_text()),
        r matches Ok(t) ==> RFC3339_MIN_SECS <= t@.0,
{
    parsed_time(Timestamp::parse_rfc3339(text))
}

/// The message of an empty analysis window.
pub open spec fn empty_window_text() -> Seq<char> {
    "from must be before to"@
}

/// The analysis window for the optional `from` and `to` texts at time `now`:
/// `to` defaults to now and `from` to 24 hours before `to`; a text that is not
/// RFC 3339 is refused (`to` is examined first), and so is a window whose start
/// is not before its end. `Ok` holds the (start, end) instants, `Err` the
/// message of an `InvalidParams` error.
pub open spec fn window_spec(from: Option<Seq<char>>, to: Option<Seq<char>>, now: (int, int)) -> Result<
    ((int, int), (int, int)),
    Seq<char>,
> {
    let end = match to {
        None => Some(now),
        Some(t) => rfc3339_instant(t),
    };
    match end {
        None => Err(bad_timestamp_text()),
        Some(end) => {
            let start = match from {
                None => Some(minus_hours_spec(end, DEFAULT_ANALYSIS_HOURS as int)),
                Some(f) => rfc3339_instant(f),
            };
            match start {
                None => Err(bad_timestamp_text()),
                Some(start) => if instant_lt(start, end) {
                    Ok((start, end))
                } else {
                    Err(empty_window_text())
                },
            }
        },
    }
}

/// The instants of a window, or the message of its error.
pub open spec fn window_view(r: Result<(Timestamp, Timestamp), ToolError>) -> Result<
    ((int, int), (int, int)),
    Seq<char>,
> {
    match r {
        Ok((f, t)) => Ok((f@, t@)),
        Err(e) => Err(e.message@),
    }
}

/// The analysis window for `from` and `to` at time `now` (see `window_spec`).
/// The default start is computed only for an end at least a day after the
/// earliest instant `chrono` represents (where `chrono` panics otherwise).
pub fn analysis_window(from: &Option<String>, to: &Option<String>, now: Timestamp) -> (r: Result<
    (Timestamp, Timestamp),
    ToolError,
>)
    requires
        now@.0 > MIN_TIMESTAMP_SECS + 86_400,
    ensures
        window_view(r) == window_spec(opt_text(*from), opt_text(*to), now@),
        r matches Err(e) ==> e.kind == ToolErrorKind::InvalidParams,
{
    let end = match to {
        Some(text) => match parse_time(text.as_str()) {
            Ok(t) => t,
            Err(e) => return Err(e),
        },
        None => now,
    };
    let start = match from {
        Some(text) => match parse_time(text.as_str()) {
            Ok(t) => t,
            Err(e) => return Err(e),
        },
        None => {
            end.minus_hours(DEFAULT_ANALYSIS_HOURS)
        },
    };
    if !start.is_before(&end) {
        return Err(
            ToolError {
                kind: ToolErrorKind::InvalidParams,
                message: String::from_str("from must be before to"),
            },
        );
    }
    Ok((start, end))
}

/// What `analyze_temperature` asks of the store: an optional sensor and the
/// (start, end) window.
#[derive(Debug, Clone)]
pub struct AnalysisPlan {
    pub sensor: Option<String>,
    pub from: Timestamp,
    pub to: Timestamp,
}

/// Whether `r` is the plan for the call at time `now`: the window of `from`
/// and `to` at `now` with the call's sensor, or the window's error as invalid
/// parameters.
pub open spec fn plan_at(params: AnalyzeTemperatureParams, r: Result<AnalysisPlan, ToolError>, now: (
    int,
    int,
)) -> bool {
    match r {
        Ok(plan) => window_spec(opt_text(params.from), opt_text(params.to), now) == Ok::<
            ((int, int), (int, int)),
            Seq<char>,
        >((plan.from@, plan.to@)) && plan.sensor == params.sensor,
        Err(e) => e.kind == ToolErrorKind::InvalidParams && window_spec(
            opt_text(params.from),
            opt_text(params.to),
            now,
        ) == Err::<((int, int), (int, int)), Seq<char>>(e.message@),
    }
}

/// What `plan_analysis` answers. When the token is refused, the scope error.
/// Otherwise, when `to` is given, the plan (the clock is not read, and the
/// window does not depend on the time: see
/// `lemma_window_ignores_clock_when_to_given`); when `to` is absent, the plan
/// at the reading of the system clock taken for the call (`clock_gave`), or,
/// when the clock gives no current time, an internal error with
/// `clock_error_text`.
pub open spec fn is_plan_for(
    params: AnalyzeTemperatureParams,
    expected_token: Option<String>,
    r: Result<AnalysisPlan, ToolError>,
) -> bool {
    &&& !authorized(opt_text(expected_token), opt_text(params.auth_token)) ==> (r matches Err(e)
        && e.kind == ToolErrorKind::InvalidParams && e.message@
        == "insufficient scope: valid auth_token required"@)
    &&& (authorized(opt_text(expected_token), opt_text(params.auth_token)) && params.to is Some)
        ==> plan_at(params, r, (0, 0))
    &&& (authorized(opt_text(expected_token), opt_text(params.auth_token)) && params.to is None)
        ==> ((r matches Err(e) && e.kind == ToolErrorKind::Internal && e.message@
        == clock_error_text()) || exists|now: Timestamp|
        #![trigger clock_gave(now)]
        clock_gave(now) && now@.0 >= 0 && valid_instant(now@.0, now@.1) && plan_at(params, r, now@))
}

/// Checks an `analyze_temperature` call and works out what to ask the store:
/// first authorization, then the window, which reads the clock only when `to`
/// is absent (see `is_plan_for`).
pub fn plan_analysis(params: &AnalyzeTemperatureParams, expected_token: &Option<String>) -> (r:
    Result<AnalysisPlan, ToolError>)
    ensures
        is_plan_for(*params, *expected_token, r),
{
    if let Err(e) = authorize(expected_token, &params.auth_token) {
        return Err(e);
    }
    let now = if params.to.is_some() {
        Timestamp::epoch()
    } else {
        match Timestamp::now() {
            Some(t) => t,
            None => return Err(clock_error()),
        }
    };
    let window = analysis_window(&params.from, &params.to, now);
    let r = match window {
        Ok((from, to)) => {
            let sensor = params.sensor.clone();
            Ok(AnalysisPlan { sensor, from, to })
        },
        Err(e) => Err(e),
    };
    assert(plan_at(*params, r, now@));
    assert(params.to is None ==> clock_gave(now));
    r
}

/// The tool error for a store failure: its message, as `InvalidParams` when
/// the message mentions an invalid time range or the row limit, else as an
/// internal error.
pub fn store_error_to_tool_error(e: &StoreError) -> (t: ToolError)
    ensures
        t.message@ == store_error_text(*e),
        (t.kind == ToolErrorKind::InvalidParams) <==> (has_substring(
            store_error_text(*e),
            "invalid time range"@,
        ) || has_substring(store_error_text(*e), "row limit"@)),
{
    let msg = e.message();
    let client = contains(msg.as_str(), "invalid time range") || contains(
        msg.as_str(),
        "row limit",
    );
    ToolError {
        kind: if client {
            ToolErrorKind::InvalidParams
        } else {
            ToolErrorKind::Internal
        },
        message: msg,
    }
}

/// The tool error for a sensor failure: an internal error with its message.
pub fn collector_error_to_tool_error(e: &CollectorError) -> (t: ToolError)
    ensures
        t.kind == ToolErrorKind::Internal,
        t.message@ == collector_error_text(*e),
{
    ToolError { kind: ToolErrorKind::Internal, message: e.message() }
}

/// The text of a version-4 UUID as `Uuid`'s `Display` writes it: 36
/// characters, hyphens at 8, 13, 18 and 23, lowercase hexadecimal digits
/// elsewhere, the version digit `4` at 14 and the variant digit (`8`, `9`, `a`
/// or `b`) at 19.
pub open spec fn is_v4_uuid_text(s: Seq<char>) -> bool {
    &&& s.len() == 36
    &&& forall|i: int|
        0 <= i < 36 ==> if i == 8 || i == 13 || i == 18 || i == 23 {
            #[trigger] s[i] == '-'
        } else {
            is_lower_hex_digit(s[i])
        }
    &&& s[14] == '4'
    &&& (s[19] == '8' || s[19] == '9' || s[19] == 'a' || s[19] == 'b')
}

/// The bytes of a version-4 UUID built from 16 random bytes: the high nibble
/// of byte 6 set to the version, 4, and the two high bits of byte 8 set to the
/// RFC 4122 variant, `10`.
pub open spec fn v4_bytes(b: Seq<u8>) -> Seq<u8> {
    b.update(6, (b[6] & 0x0f) | 0x40).update(8, (b[8] & 0x3f) | 0x80)
}

/// 32 hexadecimal digits grouped 8-4-4-4-12 with hyphens.
pub open spec fn hyphenated(h: Seq<char>) -> Seq<char> {
    h.subrange(0, 8) + seq!['-'] + h.subrange(8, 12) + seq!['-'] + h.subrange(12, 16) + seq![
        '-',
    ] + h.subrange(16, 20) + seq!['-'] + h.subrange(20, 32)
}

/// The text of the version-4 UUID built from 16 random bytes: its bytes in
/// lowercase hexadecimal, hyphenated.
pub open spec fn uuid_v4_text(random: Seq<u8>) -> Seq<char> {
    hyphenated(hex_lower(v4_bytes(random)))
}

/// The text of a version-4 UUID always has the v4 form.
pub proof fn lemma_uuid_v4_text_form(random: Seq<u8>)
    requires
        random.len() == 16,
    ensures
        is_v4_uuid_text(uuid_v4_text(random)),
{
    let d = v4_bytes(random);
    let h = hex_lower(d);
    let t = uuid_v4_text(random);
    lemma_hex_lower_len(d);
    lemma_hex_lower_digits(d);
    lemma_hex_lower_index(d, 6);
    lemma_hex_lower_index(d, 8);
    let x6 = random[6];
    let x8 = random[8];
    assert(((x6 & 0x0f) | 0x40) / 16 == 4) by (bit_vector);
    assert(8 <= ((x8 & 0x3f) | 0x80) / 16 <= 11) by (bit_vector);
    assert(d[6] == (x6 & 0x0f) | 0x40);
    assert(d[8] == (x8 & 0x3f) | 0x80);
    assert(t.len() == 36);
    assert forall|i: int|
        0 <= i < 36 implies if i == 8 || i == 13 || i == 18 || i == 23 {
            #[trigger] t[i] == '-'
        } else {
            is_lower_hex_digit(t[i])
        } by {
        if i < 8 {
            assert(t[i] == h[i]);
        } else if i == 8 || i == 13 || i == 18 || i == 23 {
        } else if i < 13 {
            assert(t[i] == h[i - 1]);
        } else if i < 18 {
            assert(t[i] == h[i - 2]);
        } else if i < 23 {
            assert(t[i] == h[i - 3]);
        } else {
            assert(t[i] == h[i - 4]);
        }
    }
    assert(t[14] == h[12]);
    assert(t[19] == h[16]);
    assert(h[12] == hex_digit(d[6] as int / 16));
    assert(h[16] == hex_digit(d[8] as int / 16));
}

/// The correlation id built from 16 random bytes
/// (`Builder::from_random_bytes`, `into_uuid`, then `to_string`). Trusted: uuid
/// sets the version and variant bits as `v4_bytes` does and writes the bytes
/// in order, hyphenated, in lowercase hexadecimal.
#[verifier::external_body]
fn correlation_id_of(random: [u8; 16]) -> (id: String)
    ensures
        id@ == uuid_v4_text(random@),
{
    Builder::from_random_bytes(random).into_uuid().to_string()
}

/// Whether `e` is the invocation event, stamped at `at`, of a call of `tool`
/// at `version` with parameters `params_json` whose correlation id was drawn
/// as `random`: caller `mcp-client`, scope `temperature:read`, the fingerprint
/// of the parameters (never the parameters themselves) and the v4 id built
/// from `random` (see `is_invoke_record`).
pub open spec fn is_invoke_event(
    e: AuditEvent,
    at: (int, int),
    tool: Seq<char>,
    version: Seq<char>,
    params_json: Seq<char>,
    random: Seq<u8>,
) -> bool {
    &&& is_invoke_record(
        e,
        at,
        tool,
        version,
        "mcp-client"@,
        "temperature:read"@,
        params_json,
        uuid_v4_text(random),
    )
    &&& is_v4_uuid_text(e.correlation_id@)
}

/// Whether `e` is the invocation event of such a call stamped at a reading
/// of the system clock (`clock_gave`): the time the call arrived.
pub open spec fn is_invoke_event_now(
    e: AuditEvent,
    tool: Seq<char>,
    version: Seq<char>,
    params_json: Seq<char>,
    random: Seq<u8>,
) -> bool {
    exists|at: Timestamp|
        #![trigger clock_gave(at)]
        clock_gave(at) && at@.0 >= 0 && valid_instant(at@.0, at@.1) && is_invoke_event(
            e,
            at@,
            tool,
            version,
            params_json,
            random,
        )
}

/// The message of a call that finds no current time.
pub open spec fn clock_error_text() -> Seq<char> {
    "system time unavailable"@
}

/// The error of a call that finds no current time: an internal error.
fn clock_error() -> (e: ToolError)
    ensures
        e.kind == ToolErrorKind::Internal,
        e.message@ == clock_error_text(),
{
    ToolError { kind: ToolErrorKind::Internal, message: String::from_str("system time unavailable") }
}

/// The invocation event for a tool call stamped at `at` (see
/// `is_invoke_event`), its correlation id built from the 16 random bytes
/// `random`.
pub fn audit_invoke_event_at(
    at: &Timestamp,
    tool: &str,
    version: &str,
    params_json: &str,
    random: [u8; 16],
) -> (e: AuditEvent)
    ensures
        is_invoke_event(e, at@, tool@, version@, params_json@, random@),
{
    let correlation_id = correlation_id_of(random);
    proof {
        lemma_uuid_v4_text_form(random@);
    }
    AuditEvent::invoke_at(
        at,
        tool,
        version,
        "mcp-client",
        "temperature:read",
        params_json,
        correlation_id.as_str(),
    )
}

/// The invocation event for a tool call stamped with the current time: the
/// clock is read (`Timestamp::now`) and the event built by
/// `audit_invoke_event_at`. `None` when the system clock gives no current
/// time.
pub fn audit_invoke_event(tool: &str, version: &str, params_json: &str, random: [u8; 16]) -> (r:
    Option<AuditEvent>)
    ensures
        r matches Some(e) ==> is_invoke_event_now(e, tool@, version@, params_json@, random@),
{
    match Timestamp::now() {
        Some(now) => {
            let e = audit_invoke_event_at(&now, tool, version, params_json, random);
            assert(clock_gave(now));
            assert(is_invoke_event(e, now@, tool@, version@, params_json@, random@));
            Some(e)
        },
        None => None,
    }
}

/// Whether `e` is the result event that follows `invoked` for the outcome
/// `outcome` (the payload's text, or the error's text): type
/// `mcp.tool.result`; on success, status `success` with the payload's size in
/// UTF-8 bytes and no error; on failure, status `error`, no bytes, and the
/// error's text; every field that names the invocation kept.
pub open spec fn is_result_event(
    e: AuditEvent,
    invoked: AuditEvent,
    outcome: Result<Seq<char>, Seq<char>>,
) -> bool {
    &&& e.event_type@ == "mcp.tool.result"@
    &&& match outcome {
        Ok(payload) => e.result_status@ == "success"@ && e.result_bytes == encode_utf8(
            payload,
        ).len() as usize && e.error is None,
        Err(message) => e.result_status@ == "error"@ && e.result_bytes == 0 && (e.error matches Some(
            m,
        ) && m@ == message),
    }
    &&& e.timestamp == invoked.timestamp
    &&& e.tool_name == invoked.tool_name
    &&& e.tool_version == invoked.tool_version
    &&& e.caller_identity == invoked.caller_identity
    &&& e.authorization_scope == invoked.authorization_scope
    &&& e.params_fingerprint == invoked.params_fingerprint
    &&& e.correlation_id == invoked.correlation_id
}

/// The event recorded after a tool call (see `is_result_event`).
pub fn tool_result_event(invoked: AuditEvent, outcome: &Result<String, String>) -> (e: AuditEvent)
    ensures
        is_result_event(
            e,
            invoked,
            match outcome {
                Ok(p) => Ok(p@),
                Err(m) => Err(m@),
            },
        ),
{
    match outcome {
        Ok(payload) => {
            let bytes = payload.as_str().len();
            invoked.with_result("success", bytes, None)
        },
        Err(message) => invoked.with_result("error", 0, Some(message.clone())),
    }
}

/// The text of a tool error as the MCP transport renders it: the JSON-RPC
/// code (-32602 for invalid parameters, -32603 for an internal error), a
/// colon, a space and the message.
pub open spec fn tool_error_text(e: ToolError) -> Seq<char> {
    match e.kind {
        ToolErrorKind::InvalidParams => "-32602: "@ + e.message@,
        ToolErrorKind::Internal => "-32603: "@ + e.message@,
    }
}

/// The text of an invalid-parameters error (`ErrorData::invalid_params`, then
/// `Display`). Trusted: rmcp writes the code `-32602`, `: ` and the message,
/// and nothing more as no data is attached.
#[verifier::external_body]
fn invalid_params_text(message: &str) -> (s: String)
    ensures
        s@ == "-32602: "@ + message@,
{
    McpError::invalid_params(message.to_string(), None).to_string()
}

/// The text of an internal error (`ErrorData::internal_error`, then
/// `Display`). Trusted: rmcp writes the code `-32603`, `: ` and the message,
/// and nothing more as no data is attached.
#[verifier::external_body]
fn internal_error_text(message: &str) -> (s: String)
    ensures
        s@ == "-32603: "@ + message@,
{
    McpError::internal_error(message.to_string(), None).to_string()
}

/// The text of a tool error (see `tool_error_text`).
pub fn tool_error_message(e: &ToolError) -> (s: String)
    ensures
        s@ == tool_error_text(*e),
{
    match e.kind {
        ToolErrorKind::InvalidParams => invalid_params_text(e.message.as_str()),
        ToolErrorKind::Internal => internal_error_text(e.message.as_str()),
    }
}

/// The texts of an outcome: the payload, or the error's text.
pub open spec fn outcome_text(o: Result<String, ToolError>) -> Result<Seq<char>, Seq<char>> {
    match o {
        Ok(p) => Ok(p@),
        Err(e) => Err(tool_error_text(e)),
    }
}

/// Where a tool call stands.
#[derive(Debug, Clone, Copy, PartialEq, Eq, Structural)]
pub enum CallPhase {
    /// The invocation event is being written.
    RecordingInvoke,
    /// The tool's work (reading sensors, querying the store) is being done.
    Working,
    /// The result event is being written.
    RecordingResult,
    /// The call has been answered.
    Done,
}

/// A `get_current_temperature` call in progress: its phase, its invocation
/// event, whether its token was accepted, and its outcome once known.
#[derive(Debug)]
pub struct CurrentTemperatureCall {
    pub phase: CallPhase,
    pub invoked: AuditEvent,
    pub authorization: Result<(), ToolError>,
    pub outcome: Option<Result<String, ToolError>>,
}

/// What happened during a `get_current_temperature` call.
#[derive(Debug)]
pub enum CurrentEvent {
    /// The audit event that was asked for was written.
    Recorded,
    /// The readings were collected; their JSON text.
    Collected(String),
    /// Collecting the readings failed.
    CollectFailed(CollectorError),
    /// Writing the readings as JSON failed; the message.
    SerializeFailed(String),
}

/// What to do next for a `get_current_temperature` call.
#[derive(Debug)]
pub enum CurrentAction {
    /// Write this audit event.
    Record(AuditEvent),
    /// Collect the readings and write them as JSON.
    Collect,
    /// Answer the call with this outcome.
    Respond(Result<String, ToolError>),
    /// The event does not belong to the call's phase; nothing to do.
    Ignore,
}

/// A `get_current_temperature` call whose invocation event is `invoked`:
/// that event is written first, before anything else happens, and the token
/// is checked against the configured one.
pub fn begin_current_temperature(
    invoked: AuditEvent,
    params: &GetCurrentTemperatureParams,
    expected_token: &Option<String>,
) -> (r: (CurrentTemperatureCall, CurrentAction))
    ensures
        r.0.phase == CallPhase::RecordingInvoke,
        r.0.invoked == invoked,
        r.0.outcome is None,
        r.1 matches CurrentAction::Record(e) && e == invoked,
        r.0.authorization is Ok <==> authorized(opt_text(*expected_token), opt_text(params.auth_token)),
        r.0.authorization matches Err(e) ==> e.kind == ToolErrorKind::InvalidParams && e.message@
            == "insufficient scope: valid auth_token required"@,
{
    let authorization = authorize(expected_token, &params.auth_token);
    let record = invoked.duplicate();
    (
        CurrentTemperatureCall {
            phase: CallPhase::RecordingInvoke,
            invoked,
            authorization,
            outcome: None,
        },
        CurrentAction::Record(record),
    )
}

/// A `get_current_temperature` call arrives: its invocation event is built
/// at the current time (`audit_invoke_event`), its correlation id from
/// `random`, and the call begins (`begin_current_temperature`). When the
/// system clock gives no current time, no event can be written and the call
/// is refused at once with an internal error.
pub fn start_current_temperature(
    params: &GetCurrentTemperatureParams,
    params_json: &str,
    expected_token: &Option<String>,
    random: [u8; 16],
) -> (r: Result<(CurrentTemperatureCall, CurrentAction), ToolError>)
    ensures
        r matches Err(e) ==> e.kind == ToolErrorKind::Internal && e.message@ == clock_error_text(),
        r matches Ok(c) ==> {
            &&& is_invoke_event_now(
                c.0.invoked,
                TOOL_GET_CURRENT@,
                TOOL_GET_CURRENT_VERSION@,
                params_json@,
                random@,
            )
            &&& c.0.phase == CallPhase::RecordingInvoke
            &&& c.0.outcome is None
            &&& c.1 matches CurrentAction::Record(e) && e == c.0.invoked
            &&& c.0.authorization is Ok <==> authorized(
                opt_text(*expected_token),
                opt_text(params.auth_token),
            )
            &&& c.0.authorization matches Err(e) ==> e.kind == ToolErrorKind::InvalidParams
                && e.message@ == "insufficient scope: valid auth_token required"@
        },
{
    match audit_invoke_event(TOOL_GET_CURRENT, TOOL_GET_CURRENT_VERSION, params_json, random) {
        Some(invoked) => Ok(begin_current_temperature(invoked, params, expected_token)),
        None => Err(clock_error()),
    }
}

/// Records the outcome of a call and asks for its result event.
fn conclude_current(call: CurrentTemperatureCall, outcome: Result<String, ToolError>) -> (r: (
    CurrentTemperatureCall,
    CurrentAction,
))
    ensures
        r.0.phase == CallPhase::RecordingResult,
        r.0.invoked == call.invoked,
        r.0.authorization == call.authorization,
        r.0.outcome == Some(outcome),
        r.1 matches CurrentAction::Record(e) && is_result_event(
            e,
            call.invoked,
            outcome_text(outcome),
        ),
{
    let text = match &outcome {
        Ok(p) => Ok(p.clone()),
        Err(e) => Err(tool_error_message(e)),
    };
    let event = tool_result_event(call.invoked.duplicate(), &text);
    (
        CurrentTemperatureCall {
            phase: CallPhase::RecordingResult,
            invoked: call.invoked,
            authorization: call.authorization,
            outcome: Some(outcome),
        },
        CurrentAction::Record(event),
    )
}

/// The next step of a `get_current_temperature` call. After the invocation
/// event: a refused token ends the call with that error and the readings are
/// never collected; an accepted one asks for the readings. The readings'
/// JSON is capped (see `cap_response`); a collector failure is an internal
/// error with its text, as is a failure to write JSON. Each outcome is
/// followed by its result event, and only after that is the call answered.
/// An event that does not belong to the phase changes nothing.
pub fn current_temperature_step(call: CurrentTemperatureCall, event: CurrentEvent) -> (r: (
    CurrentTemperatureCall,
    CurrentAction,
))
    ensures
        r.0.invoked == call.invoked,
        r.0.authorization == call.authorization,
        ({
            let phase = call.phase;
            match event {
                CurrentEvent::Recorded => if phase == CallPhase::RecordingInvoke {
                    match call.authorization {
                        Ok(_) => r.0.phase == CallPhase::Working && r.0.outcome is None
                            && r.1 is Collect,
                        Err(e) => r.0.phase == CallPhase::RecordingResult && r.0.outcome
                            == Some(Err::<String, ToolError>(e)) && (r.1 matches CurrentAction::Record(
                            ev,
                        ) && is_result_event(ev, call.invoked, Err(tool_error_text(e)))),
                    }
                } else if phase == CallPhase::RecordingResult && call.outcome is Some {
                    r.0.phase == CallPhase::Done && r.0.outcome is None && (r.1 matches CurrentAction::Respond(
                        o,
                    ) && Some(o) == call.outcome)
                } else {
                    r.0 == call && r.1 is Ignore
                },
                CurrentEvent::Collected(json) => if phase == CallPhase::Working {
                    r.0.phase == CallPhase::RecordingResult && (r.0.outcome matches Some(o) && (
                    (utf8_len(json@) <= MAX_RESPONSE_BYTES ==> (o matches Ok(p) && p@ == json@)) && (
                    utf8_len(json@) > MAX_RESPONSE_BYTES ==> (o matches Err(e) && e.kind
                        == ToolErrorKind::Internal && e.message@
                        == cap_exceeded_text())) && (r.1 matches CurrentAction::Record(
                        ev,
                    ) && is_result_event(ev, call.invoked, outcome_text(o)))))
                } else {
                    r.0 == call && r.1 is Ignore
                },
                CurrentEvent::CollectFailed(ce) => if phase == CallPhase::Working {
                    r.0.phase == CallPhase::RecordingResult && (r.0.outcome matches Some(Err(e))
                        && e.kind == ToolErrorKind::Internal && e.message@ == collector_error_text(ce)
                        && (r.1 matches CurrentAction::Record(ev) && is_result_event(
                        ev,
                        call.invoked,
                        Err(tool_error_text(e)),
                    )))
                } else {
                    r.0 == call && r.1 is Ignore
                },
                CurrentEvent::SerializeFailed(m) => if phase == CallPhase::Working {
                    r.0.phase == CallPhase::RecordingResult && (r.0.outcome matches Some(Err(e))
                        && e.kind == ToolErrorKind::Internal && e.message@ == m@ && (
                    r.1 matches CurrentAction::Record(ev) && is_result_event(
                        ev,
                        call.invoked,
                        Err(tool_error_text(e)),
                    )))
                } else {
                    r.0 == call && r.1 is Ignore
                },
            }
        }),
{
    match event {
        CurrentEvent::Recorded => {
            if call.phase == CallPhase::RecordingResult && call.outcome.is_some() {
                let CurrentTemperatureCall { phase: _, invoked, authorization, outcome } = call;
                let answer = match outcome {
                    Some(o) => o,
                    None => Err(ToolError { kind: ToolErrorKind::Internal, message: String::new() }),
                };
                return (
                    CurrentTemperatureCall {
                        phase: CallPhase::Done,
                        invoked,
                        authorization,
                        outcome: None,
                    },
                    CurrentAction::Respond(answer),
                );
            }
            if call.phase != CallPhase::RecordingInvoke {
                return (call, CurrentAction::Ignore);
            }
            match &call.authorization {
                Ok(_) => {
                    let CurrentTemperatureCall { phase: _, invoked, authorization, outcome: _ } =
                        call;
                    (
                        CurrentTemperatureCall {
                            phase: CallPhase::Working,
                            invoked,
                            authorization,
                            outcome: None,
                        },
                        CurrentAction::Collect,
                    )
                },
                Err(e) => {
                    let denial = ToolError {
                        kind: e.kind,
                        message: e.message.clone(),
                    };
                    conclude_current(call, Err(denial))
                },
            }
        },
        CurrentEvent::Collected(json) => {
            if call.phase != CallPhase::Working {
                return (call, CurrentAction::Ignore);
            }
            let outcome = cap_response(json.as_str());
            conclude_current(call, outcome)
        },
        CurrentEvent::CollectFailed(ce) => {
            if call.phase != CallPhase::Working {
                return (call, CurrentAction::Ignore);
            }
            conclude_current(call, Err(collector_error_to_tool_error(&ce)))
        },
        CurrentEvent::SerializeFailed(m) => {
            if call.phase != CallPhase::Working {
                return (call, CurrentAction::Ignore);
            }
            conclude_current(call, Err(ToolError { kind: ToolErrorKind::Internal, message: m }))
        },
    }
}

/// An `analyze_temperature` call in progress: its phase, its invocation
/// event, its plan (or the error that refused it), and its outcome once known.
#[derive(Debug)]
pub struct AnalyzeTemperatureCall {
    pub phase: CallPhase,
    pub invoked: AuditEvent,
    pub plan: Result<AnalysisPlan, ToolError>,
    pub outcome: Option<Result<String, ToolError>>,
}

/// What happened during an `analyze_temperature` call.
#[derive(Debug)]
pub enum AnalyzeEvent {
    /// The audit event that was asked for was written.
    Recorded,
    /// The store answered; the analysis as JSON text.
    Analyzed(String),
    /// The store failed.
    StoreFailed(StoreError),
    /// Writing the analysis as JSON failed; the message.
    SerializeFailed(String),
}

/// What to do next for an `analyze_temperature` call.
#[derive(Debug)]
pub enum AnalyzeAction {
    /// Write this audit event.
    Record(AuditEvent),
    /// Ask the store for this analysis and write it as JSON.
    Query(AnalysisPlan),
    /// Answer the call with this outcome.
    Respond(Result<String, ToolError>),
    /// The event does not belong to the call's phase; nothing to do.
    Ignore,
}

/// An `analyze_temperature` call whose invocation event is `invoked` and
/// whose plan (or refusal) is `plan`: that event is written first, and the
/// store is asked nothing before it is.
pub fn begin_analyze_temperature(invoked: AuditEvent, plan: Result<AnalysisPlan, ToolError>) -> (r:
    (AnalyzeTemperatureCall, AnalyzeAction))
    ensures
        r.0.phase == CallPhase::RecordingInvoke,
        r.0.invoked == invoked,
        r.0.plan == plan,
        r.0.outcome is None,
        r.1 matches AnalyzeAction::Record(e) && e == invoked,
{
    let record = invoked.duplicate();
    (
        AnalyzeTemperatureCall { phase: CallPhase::RecordingInvoke, invoked, plan, outcome: None },
        AnalyzeAction::Record(record),
    )
}

/// An `analyze_temperature` call arrives: its invocation event is built at
/// the current time (`audit_invoke_event`), its correlation id from `random`;
/// the call is checked and planned (`plan_analysis`) and begins
/// (`begin_analyze_temperature`). When the system clock gives no current time
/// for the event, no event can be written and the call is refused at once
/// with an internal error.
pub fn start_analyze_temperature(
    params: &AnalyzeTemperatureParams,
    params_json: &str,
    expected_token: &Option<String>,
    random: [u8; 16],
) -> (r: Result<(AnalyzeTemperatureCall, AnalyzeAction), ToolError>)
    ensures
        r matches Err(e) ==> e.kind == ToolErrorKind::Internal && e.message@ == clock_error_text(),
        r matches Ok(c) ==> {
            &&& is_invoke_event_now(
                c.0.invoked,
                TOOL_ANALYZE@,
                TOOL_ANALYZE_VERSION@,
                params_json@,
                random@,
            )
            &&& is_plan_for(*params, *expected_token, c.0.plan)
            &&& c.0.phase == CallPhase::RecordingInvoke
            &&& c.0.outcome is None
            &&& c.1 matches AnalyzeAction::Record(e) && e == c.0.invoked
        },
{
    match audit_invoke_event(TOOL_ANALYZE, TOOL_ANALYZE_VERSION, params_json, random) {
        Some(invoked) => {
            let plan = plan_analysis(params, expected_token);
            Ok(begin_analyze_temperature(invoked, plan))
        },
        None => Err(clock_error()),
    }
}

/// Records the outcome of an analysis call and asks for its result event.
fn conclude_analysis(call: AnalyzeTemperatureCall, outcome: Result<String, ToolError>) -> (r: (
    AnalyzeTemperatureCall,
    AnalyzeAction,
))
    ensures
        r.0.phase == CallPhase::RecordingResult,
        r.0.invoked == call.invoked,
        r.0.plan == call.plan,
        r.0.outcome == Some(outcome),
        r.1 matches AnalyzeAction::Record(e) && is_result_event(
            e,
            call.invoked,
            outcome_text(outcome),
        ),
{
    let text = match &outcome {
        Ok(p) => Ok(p.clone()),
        Err(e) => Err(tool_error_message(e)),
    };
    let event = tool_result_event(call.invoked.duplicate(), &text);
    (
        AnalyzeTemperatureCall {
            phase: CallPhase::RecordingResult,
            invoked: call.invoked,
            plan: call.plan,
            outcome: Some(outcome),
        },
        AnalyzeAction::Record(event),
    )
}

/// The next step of an `analyze_temperature` call. After the invocation
/// event: a refused plan ends the call with its error and the store is never
/// asked; an accepted one asks the store for it. The analysis's JSON is capped
/// (see `cap_response`); a store failure is answered as
/// `store_error_to_tool_error` maps it, and a failure to write JSON is an
/// internal error. Each outcome is followed by its result event, and only
/// after that is the call answered. An event that does not belong to the
/// phase changes nothing.
pub fn analyze_temperature_step(call: AnalyzeTemperatureCall, event: AnalyzeEvent) -> (r: (
    AnalyzeTemperatureCall,
    AnalyzeAction,
))
    ensures
        r.0.invoked == call.invoked,
        r.0.plan == call.plan,
        ({
            let phase = call.phase;
            match event {
                AnalyzeEvent::Recorded => if phase == CallPhase::RecordingInvoke {
                    match call.plan {
                        Ok(p) => r.0.phase == CallPhase::Working && r.0.outcome is None && (
                        r.1 matches AnalyzeAction::Query(q) && q == p),
                        Err(e) => r.0.phase == CallPhase::RecordingResult && r.0.outcome == Some(
                            Err::<String, ToolError>(e),
                        ) && (r.1 matches AnalyzeAction::Record(ev) && is_result_event(
                            ev,
                            call.invoked,
                            Err(tool_error_text(e)),
                        )),
                    }
                } else if phase == CallPhase::RecordingResult && call.outcome is Some {
                    r.0.phase == CallPhase::Done && r.0.outcome is None && (r.1 matches AnalyzeAction::Respond(
                        o,
                    ) && Some(o) == call.outcome)
                } else {
                    r.0 == call && r.1 is Ignore
                },
                AnalyzeEvent::Analyzed(json) => if phase == CallPhase::Working {
                    r.0.phase == CallPhase::RecordingResult && (r.0.outcome matches Some(o) && (
                    (utf8_len(json@) <= MAX_RESPONSE_BYTES ==> (o matches Ok(p) && p@ == json@))
                        && (utf8_len(json@) > MAX_RESPONSE_BYTES ==> (o matches Err(e) && e.kind
                        == ToolErrorKind::Internal && e.message@
                        == cap_exceeded_text())) && (r.1 matches AnalyzeAction::Record(
                        ev,
                    ) && is_result_event(ev, call.invoked, outcome_text(o)))))
                } else {
                    r.0 == call && r.1 is Ignore
                },
                AnalyzeEvent::StoreFailed(se) => if phase == CallPhase::Working {
                    r.0.phase == CallPhase::RecordingResult && (r.0.outcome matches Some(Err(e))
                        && e.message@ == store_error_text(se) && (e.kind
                        == ToolErrorKind::InvalidParams <==> (has_substring(
                        store_error_text(se),
                        "invalid time range"@,
                    ) || has_substring(store_error_text(se), "row limit"@))) && (
                    r.1 matches AnalyzeAction::Record(ev) && is_result_event(
                        ev,
                        call.invoked,
                        Err(tool_error_text(e)),
                    )))
                } else {
                    r.0 == call && r.1 is Ignore
                },
                AnalyzeEvent::SerializeFailed(m) => if phase == CallPhase::Working {
                    r.0.phase == CallPhase::RecordingResult && (r.0.outcome matches Some(Err(e))
                        && e.kind == ToolErrorKind::Internal && e.message@ == m@ && (
                    r.1 matches AnalyzeAction::Record(ev) && is_result_event(
                        ev,
                        call.invoked,
                        Err(tool_error_text(e)),
                    )))
                } else {
                    r.0 == call && r.1 is Ignore
                },
            }
        }),
{
    match event {
        AnalyzeEvent::Recorded => {
            if call.phase == CallPhase::RecordingResult && call.outcome.is_some() {
                let AnalyzeTemperatureCall { phase: _, invoked, plan, outcome } = call;
                let answer = match outcome {
                    Some(o) => o,
                    None => Err(ToolError { kind: ToolErrorKind::Internal, message: String::new() }),
                };
                return (
                    AnalyzeTemperatureCall { phase: CallPhase::Done, invoked, plan, outcome: None },
                    AnalyzeAction::Respond(answer),
                );
            }
            if call.phase != CallPhase::RecordingInvoke {
                return (call, AnalyzeAction::Ignore);
            }
            match &call.plan {
                Ok(p) => {
                    let sensor = match &p.sensor {
                        Some(name) => Some(name.clone()),
                        None => None,
                    };
                    let query = AnalysisPlan { sensor, from: p.from, to: p.to };
                    let AnalyzeTemperatureCall { phase: _, invoked, plan, outcome: _ } = call;
                    (
                        AnalyzeTemperatureCall {
                            phase: CallPhase::Working,
                            invoked,
                            plan,
                            outcome: None,
                        },
                        AnalyzeAction::Query(query),
                    )
                },
                Err(e) => {
                    let refusal = ToolError { kind: e.kind, message: e.message.clone() };
                    conclude_analysis(call, Err(refusal))
                },
            }
        },
        AnalyzeEvent::Analyzed(json) => {
            if call.phase != CallPhase::Working {
                return (call, AnalyzeAction::Ignore);
            }
            let outcome = cap_response(json.as_str());
            conclude_analysis(call, outcome)
        },
        AnalyzeEvent::StoreFailed(se) => {
            if call.phase != CallPhase::Working {
                return (call, AnalyzeAction::Ignore);
            }
            conclude_analysis(call, Err(store_error_to_tool_error(&se)))
        },
        AnalyzeEvent::SerializeFailed(m) => {
            if call.phase != CallPhase::Working {
                return (call, AnalyzeAction::Ignore);
            }
            conclude_analysis(call, Err(ToolError { kind: ToolErrorKind::Internal, message: m }))
        },
    }
}

/// Whether two audit events agree on every field but the time, the
/// correlation id and the parameters' fingerprint.
pub open spec fn same_but_call_identity(a: AuditEvent, b: AuditEvent) -> bool {
    &&& a.event_type@ == b.event_type@
    &&& a.tool_name@ == b.tool_name@
    &&& a.tool_version@ == b.tool_version@
    &&& a.caller_identity@ == b.caller_identity@
    &&& a.authorization_scope@ == b.authorization_scope@
    &&& a.result_status@ == b.result_status@
    &&& a.result_bytes == b.result_bytes
    &&& opt_text(a.error) == opt_text(b.error)
}

/// A call's parameters, its token among them, reach the audit events only
/// through their SHA-256 fingerprint: two calls of the same tool with the
/// same outcome write invocation events, and result events, that agree on
/// every field but the time, the correlation id and the fingerprint, and each
/// event carries the fingerprint of its own call's parameters. The premises
/// are what `start_current_temperature` and `start_analyze_temperature` give
/// of the invocation event and what the two step functions give of the result
/// event.
pub proof fn lemma_parameters_reach_audit_only_as_fingerprint(
    invoked1: AuditEvent,
    invoked2: AuditEvent,
    result1: AuditEvent,
    result2: AuditEvent,
    tool: Seq<char>,
    version: Seq<char>,
    params1: Seq<char>,
    params2: Seq<char>,
    random1: Seq<u8>,
    random2: Seq<u8>,
    outcome: Result<Seq<char>, Seq<char>>,
)
    requires
        is_invoke_event_now(invoked1, tool, version, params1, random1),
        is_invoke_event_now(invoked2, tool, version, params2, random2),
        is_result_event(result1, invoked1, outcome),
        is_result_event(result2, invoked2, outcome),
    ensures
        same_but_call_identity(invoked1, invoked2),
        same_but_call_identity(result1, result2),
        invoked1.params_fingerprint@ == fingerprint_of(params1),
        result1.params_fingerprint@ == fingerprint_of(params1),
        invoked2.params_fingerprint@ == fingerprint_of(params2),
        result2.params_fingerprint@ == fingerprint_of(params2),
{
    let at1 = choose|at: Timestamp|
        clock_gave(at) && is_invoke_event(invoked1, at@, tool, version, params1, random1);
    let at2 = choose|at: Timestamp|
        clock_gave(at) && is_invoke_event(invoked2, at@, tool, version, params2, random2);
    assert(is_invoke_event(invoked1, at1@, tool, version, params1, random1));
    assert(is_invoke_event(invoked2, at2@, tool, version, params2, random2));
}

/// When `to` is absent, an accepted analysis ends at the time of the call:
/// its end is the reading of the system clock taken for the call; its start
/// is the given `from`, or, without one, 24 hours before that end; and it
/// starts before it ends.
pub proof fn lemma_open_window_ends_at_call_time(
    params: AnalyzeTemperatureParams,
    expected_token: Option<String>,
    r: Result<AnalysisPlan, ToolError>,
)
    requires
        is_plan_for(params, expected_token, r),
        params.to is None,
        r is Ok,
    ensures
        exists|now: Timestamp|
            #![trigger clock_gave(now)]
            clock_gave(now) && r->Ok_0.to@ == now@ && (params.from is None ==> r->Ok_0.from@
                == minus_hours_spec(now@, 24)) && (params.from matches Some(f) ==> rfc3339_instant(
                f@,
            ) == Some(r->Ok_0.from@)) && instant_lt(r->Ok_0.from@, r->Ok_0.to@),
{
    let now = choose|now: Timestamp|
        clock_gave(now) && now@.0 >= 0 && valid_instant(now@.0, now@.1) && plan_at(params, r, now@);
    assert(clock_gave(now));
}

/// When `to` is absent and an authorized call with a readable `from` is
/// refused as invalid, that `from` is not before the time of the call: the
/// reading of the system clock taken for the call.
pub proof fn lemma_open_window_refusal_against_call_time(
    params: AnalyzeTemperatureParams,
    expected_token: Option<String>,
    r: Result<AnalysisPlan, ToolError>,
    start: (int, int),
)
    requires
        is_plan_for(params, expected_token, r),
        params.to is None,
        authorized(opt_text(expected_token), opt_text(params.auth_token)),
        params.from matches Some(f) && rfc3339_instant(f@) == Some(start),
        r matches Err(e) && e.kind == ToolErrorKind::InvalidParams,
    ensures
        exists|now: Timestamp| #![trigger clock_gave(now)] clock_gave(now) && !instant_lt(start, now@),
{
    let now = choose|now: Timestamp|
        clock_gave(now) && now@.0 >= 0 && valid_instant(now@.0, now@.1) && plan_at(params, r, now@);
    assert(clock_gave(now));
}

/// An accepted plan asks the store about exactly the sensor the call named
/// (or every sensor, when it named none).
pub proof fn lemma_plan_keeps_sensor(
    params: AnalyzeTemperatureParams,
    expected_token: Option<String>,
    r: Result<AnalysisPlan, ToolError>,
)
    requires
        is_plan_for(params, expected_token, r),
        r is Ok,
    ensures
        r->Ok_0.sensor == params.sensor,
{
    if params.to is None {
        let now = choose|now: Timestamp|
            clock_gave(now) && now@.0 >= 0 && valid_instant(now@.0, now@.1) && plan_at(
                params,
                r,
                now@,
            );
        assert(plan_at(params, r, now@));
    }
}

/// An invocation event is stamped with the time the call arrived: the RFC
/// 3339 text of the reading of the system clock taken for the call.
pub proof fn lemma_invocation_stamped_at_call_time(
    e: AuditEvent,
    tool: Seq<char>,
    version: Seq<char>,
    params_json: Seq<char>,
    random: Seq<u8>,
)
    requires
        is_invoke_event_now(e, tool, version, params_json, random),
    ensures
        exists|at: Timestamp|
            #![trigger clock_gave(at)]
            clock_gave(at) && e.timestamp@ == rfc3339_text(at@.0, at@.1),
{
    let at = choose|at: Timestamp|
        clock_gave(at) && at@.0 >= 0 && valid_instant(at@.0, at@.1) && is_invoke_event(
            e,
            at@,
            tool,
            version,
            params_json,
            random,
        );
    assert(clock_gave(at));
}

/// When `to` is given, the window does not depend on the time of the call.
pub proof fn lemma_window_ignores_clock_when_to_given(
    from: Option<Seq<char>>,
    to: Seq<char>,
    now: (int, int),
    later: (int, int),
)
    ensures
        window_spec(from, Some(to), now) == window_spec(from, Some(to), later),
{
}

/// Every window the tool accepts is non-empty: its start is strictly before
/// its end, so the store's range check accepts it too.
pub proof fn lemma_accepted_window_is_ordered(
    from: Option<Seq<char>>,
    to: Option<Seq<char>>,
    now: (int, int),
)
    ensures
        window_spec(from, to, now) matches Ok((start, end)) ==> instant_lt(start, end),
{
}

/// A call that gives neither `from` nor `to` always gets a window: the 24
/// hours before now.
pub proof fn lemma_default_window(now: (int, int))
    requires
        valid_instant(now.0, now.1),
        now.0 > MIN_TIMESTAMP_SECS + 86_400,
    ensures
        window_spec(None, None, now) == Ok::<((int, int), (int, int)), Seq<char>>(
            (minus_hours_spec(now, DEFAULT_ANALYSIS_HOURS as int), now),
        ),
{
    lemma_minus_hours_earlier(now, DEFAULT_ANALYSIS_HOURS as int);
}

/// When only `to` is given and parses, the window is the 24 hours before it.
pub proof fn lemma_default_start(to: Seq<char>, end: (int, int), now: (int, int))
    requires
        rfc3339_instant(to) == Some(end),
        valid_instant(end.0, end.1),
        minus_hours_spec(end, DEFAULT_ANALYSIS_HOURS as int).0 >= MIN_TIMESTAMP_SECS,
    ensures
        window_spec(None, Some(to), now) == Ok::<((int, int), (int, int)), Seq<char>>(
            (minus_hours_spec(end, DEFAULT_ANALYSIS_HOURS as int), end),
        ),
{
    lemma_minus_hours_earlier(end, DEFAULT_ANALYSIS_HOURS as int);
}

/// An invalid range and an exceeded row limit reach the caller as invalid
/// parameters, not as server errors.
pub proof fn lemma_store_refusals_are_invalid_params()
    ensures
        has_substring(store_error_text(StoreError::InvalidRange), "invalid time range"@),
        has_substring(store_error_text(StoreError::RowLimitExceeded), "row limit"@),
{
    reveal_strlit("invalid time range: start must be before end");
    reveal_strlit("invalid time range");
    reveal_strlit("row limit exceeded (max ");
    reveal_strlit("row limit");
    let a = store_error_text(StoreError::InvalidRange);
    let b = store_error_text(StoreError::RowLimitExceeded);
    assert(a.subrange(0, 18) =~= "invalid time range"@);
    assert(crate::text::occurs_at(a, "invalid time range"@, 0));
    assert(b.subrange(0, 9) =~= "row limit"@);
    assert(crate::text::occurs_at(b, "row limit"@, 0));
}

} // verus!
