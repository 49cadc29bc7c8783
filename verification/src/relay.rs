//! The two relay operations' verified halves: building the outbound URL and
//! classifying the inbound response into a parsed JSON value or a
//! descriptive text message.

use vstd::prelude::*;
use crate::outside::{json_parse_of, parse_json_text, percent_encode, percent_encoding_of};
use crate::text::{decimal_seq, push_decimal, trim_copy, trimmed};

verus! {

/// Which relay operation a response belongs to; it decides the wording of a
/// status-failure message.
#[derive(Clone, Copy, Debug)]
pub enum RelayOperation {
    /// The place-name search, a POST with a query payload.
    Search,
    /// The per-identifier detail lookup, a GET.
    Detail,
}

/// The fixed search endpoint.
pub open spec fn search_url_text() -> Seq<char> {
    "http://timespace-china.fudan.edu.cn/gateway/geom-name/placename-object/home/placename"@
}

/// The fixed detail endpoint up to the identifier's path segment.
pub open spec fn detail_base_url_text() -> Seq<char> {
    "http://timespace-china.fudan.edu.cn/gateway/geom-name/placename-object/home/placename/json/"@
}

/// The detail endpoint for an identifier: the percent-encoded trimmed
/// identifier appended to the fixed base.
pub open spec fn detail_url_text(sys_id: Seq<char>) -> Seq<char> {
    detail_base_url_text() + percent_encoding_of(trimmed(sys_id))
}

/// The validation failure for a blank identifier.
pub open spec fn empty_identifier_message() -> Seq<char> {
    "sysId 不能为空"@
}

/// What a caller reports when the response body could not be read.
pub open spec fn unreadable_body_text() -> Seq<char> {
    "<无法读取响应正文>"@
}

/// The message for a failure to reach the service at all.
pub open spec fn transport_failure_text(cause: Seq<char>) -> Seq<char> {
    "网络请求失败: "@ + cause
}

/// The wording that opens a status-failure message.
pub open spec fn status_failure_prefix(op: RelayOperation) -> Seq<char> {
    match op {
        RelayOperation::Search => "查询失败"@,
        RelayOperation::Detail => "获取详情失败"@,
    }
}

/// The message for a response whose status is no success: the operation's
/// wording, the status code and its reason text, then the body.
pub open spec fn status_failure_text(
    op: RelayOperation,
    status: u16,
    reason: Seq<char>,
    body: Seq<char>,
) -> Seq<char> {
    status_failure_prefix(op) + " ("@ + decimal_seq(status as nat) + " "@ + reason + "): "@ + body
}

/// The message for a body that did not parse as JSON.
pub open spec fn parse_failure_text(cause: Seq<char>) -> Seq<char> {
    "解析响应失败: "@ + cause
}

/// A status in the success range.
pub open spec fn status_is_success(status: u16) -> bool {
    200 <= status < 300
}

/// What a relay operation returns for a response: the parsed body on a
/// success status, otherwise the status-failure message; on a success
/// status whose body is no JSON, the parse-failure message.
pub open spec fn relay_response_result(
    op: RelayOperation,
    status: u16,
    reason: Seq<char>,
    body: Seq<char>,
) -> Result<serde_json::Value, Seq<char>> {
    if !status_is_success(status) {
        Err(status_failure_text(op, status, reason, body))
    } else {
        match json_parse_of(body) {
            Ok(v) => Ok(v),
            Err(e) => Err(parse_failure_text(e)),
        }
    }
}

/// The fixed search endpoint as a string.
pub fn search_endpoint_url() -> (r: String)
    ensures
        r@ == search_url_text(),
{
    String::from_str(
        "http://timespace-china.fudan.edu.cn/gateway/geom-name/placename-object/home/placename",
    )
}

/// The message for a failure to reach the service, around the transport's
/// own rendering of the cause.
pub fn transport_failure_message(cause: &str) -> (r: String)
    ensures
        r@ == transport_failure_text(cause@),
{
    let mut m = String::from_str("网络请求失败: ");
    m.append(cause);
    m
}

/// What a caller substitutes for a response body it could not read.
pub fn unreadable_body_placeholder() -> (r: String)
    ensures
        r@ == unreadable_body_text(),
{
    String::from_str("<无法读取响应正文>")
}

/// Builds the detail endpoint URL for an identifier: trims it, rejects a
/// blank one before anything is sent, and percent-encodes the rest into the
/// fixed path template.
pub fn detail_endpoint_url(sys_id: &str) -> (r: Result<String, String>)
    ensures
        (match r {
            Ok(u) => trimmed(sys_id@).len() > 0 && u@ == detail_url_text(sys_id@),
            Err(m) => trimmed(sys_id@).len() == 0 && m@ == empty_identifier_message(),
        }),
{
    let t = trim_copy(sys_id);
    if t.as_str().is_empty() {
        return Err(String::from_str("sysId 不能为空"));
    }
    let encoded = percent_encode(t.as_str());
    let mut u = String::from_str(
        "http://timespace-china.fudan.edu.cn/gateway/geom-name/placename-object/home/placename/json/",
    );
    u.append(encoded.as_str());
    Ok(u)
}

/// Classifies a response: on a success status the body is parsed as JSON
/// and returned; on any other status the operation's failure message is
/// built from the status line and the body; a body that does not parse
/// yields the parse-failure message.
pub fn handle_response(op: RelayOperation, status: u16, reason: &str, body: &str) -> (r: Result<
    serde_json::Value,
    String,
>)
    ensures
        (match r {
            Ok(v) => relay_response_result(op, status, reason@, body@) == Ok::<
                serde_json::Value,
                Seq<char>,
            >(v),
            Err(m) => relay_response_result(op, status, reason@, body@) == Err::<
                serde_json::Value,
                Seq<char>,
            >(m@),
        }),
{
    if status < 200 || status >= 300 {
        let mut m = match op {
            RelayOperation::Search => String::from_str("查询失败"),
            RelayOperation::Detail => String::from_str("获取详情失败"),
        };
        m.append(" (");
        push_decimal(&mut m, status as u32);
        m.append(" ");
        m.append(reason);
        m.append("): ");
        m.append(body);
        return Err(m);
    }
    match parse_json_text(body) {
        Ok(v) => Ok(v),
        Err(e) => {
            let mut m = String::from_str("解析响应失败: ");
            m.append(e.as_str());
            Err(m)
        },
    }
}

/// The search operation's response handling.
pub fn search_response(status: u16, reason: &str, body: &str) -> (r: Result<
    serde_json::Value,
    String,
>)
    ensures
        (match r {
            Ok(v) => relay_response_result(RelayOperation::Search, status, reason@, body@) == Ok::<
                serde_json::Value,
                Seq<char>,
            >(v),
            Err(m) => relay_response_result(RelayOperation::Search, status, reason@, body@)
                == Err::<serde_json::Value, Seq<char>>(m@),
        }),
{
    handle_response(RelayOperation::Search, status, reason, body)
}

/// The detail operation's response handling.
pub fn detail_response(status: u16, reason: &str, body: &str) -> (r: Result<
    serde_json::Value,
    String,
>)
    ensures
        (match r {
            Ok(v) => relay_response_result(RelayOperation::Detail, status, reason@, body@) == Ok::<
                serde_json::Value,
                Seq<char>,
            >(v),
            Err(m) => relay_response_result(RelayOperation::Detail, status, reason@, body@)
                == Err::<serde_json::Value, Seq<char>>(m@),
        }),
{
    handle_response(RelayOperation::Detail, status, reason, body)
}

/// Law: the outcome of a relay operation is a function of the response
/// alone. Two calls classifying equal status lines and equal bodies yield
/// equal results — nothing else flows in, so repeating a call against the
/// same fixed response changes nothing.
pub proof fn lemma_relay_response_deterministic(
    op: RelayOperation,
    status: u16,
    reason1: Seq<char>,
    body1: Seq<char>,
    reason2: Seq<char>,
    body2: Seq<char>,
)
    requires
        reason1 == reason2,
        body1 == body2,
    ensures
        relay_response_result(op, status, reason1, body1) == relay_response_result(
            op,
            status,
            reason2,
            body2,
        ),
{
}

} // verus!

