use placename_relay::{
    detail_endpoint_url, detail_response, search_endpoint_url, search_request_body,
    search_response, transport_failure_message, u32_decimal, unreadable_body_placeholder,
    PlacenameQueryPayload,
};

fn payload(
    limit: Option<u32>,
    name: Option<&str>,
    page: Option<u32>,
    kind: Option<&str>,
    year: Option<u32>,
) -> PlacenameQueryPayload {
    PlacenameQueryPayload {
        limit,
        name: name.map(|s| s.to_string()),
        page,
        kind: kind.map(|s| s.to_string()),
        year,
    }
}

#[test]
fn body_omits_absent_fields() {
    let body = search_request_body(&payload(Some(10), None, Some(2), None, None));
    assert_eq!(body, "{\"limit\":10,\"page\":2}");

    let body = search_request_body(&payload(None, Some("西安"), None, None, Some(1820)));
    assert_eq!(body, "{\"name\":\"西安\",\"year\":1820}");
}

#[test]
fn body_of_empty_payload_is_empty_object() {
    let body = search_request_body(&payload(None, None, None, None, None));
    assert_eq!(body, "{}");
}

#[test]
fn body_uses_wire_name_type_for_kind() {
    let body = search_request_body(&payload(None, None, None, Some("聚落"), None));
    assert_eq!(body, "{\"type\":\"聚落\"}");
    assert!(!body.contains("kind"));
}

#[test]
fn full_body_lists_fields_in_declaration_order() {
    let body = search_request_body(&payload(Some(20), Some("洛阳"), Some(1), Some("县"), Some(756)));
    assert_eq!(
        body,
        "{\"limit\":20,\"name\":\"洛阳\",\"page\":1,\"type\":\"县\",\"year\":756}"
    );
}

#[test]
fn body_escapes_json_string_values() {
    let body = search_request_body(&payload(None, Some("a\"b\\c\nd\u{1f}e"), None, None, None));
    assert_eq!(body, "{\"name\":\"a\\\"b\\\\c\\nd\\u001fe\"}");

    let body = search_request_body(&payload(None, Some("\u{8}\u{c}\r\t\u{0}"), None, None, None));
    assert_eq!(body, "{\"name\":\"\\b\\f\\r\\t\\u0000\"}");
}

#[test]
fn body_round_trips_through_a_json_parser() {
    let name = "a\"b\\c\nd\u{1f}长安";
    let body = search_request_body(&payload(Some(3), Some(name), None, Some("聚落"), None));
    let parsed: serde_json::Value = serde_json::from_str(&body).unwrap();

    let mut expected = serde_json::Map::new();
    expected.insert("limit".to_string(), serde_json::Value::from(3u32));
    expected.insert("name".to_string(), serde_json::Value::from(name));
    expected.insert("type".to_string(), serde_json::Value::from("聚落"));
    assert_eq!(parsed, serde_json::Value::Object(expected));
}

#[test]
fn search_returns_the_parsed_json_body_on_success() {
    let body = "{\"total\":1,\"items\":[{\"id\":\"A1\"}]}";
    let got = search_response(200, "OK", body).unwrap();
    let expected: serde_json::Value = serde_json::from_str(body).unwrap();
    assert_eq!(got, expected);
    assert_eq!(got["total"], serde_json::Value::from(1u32));
    assert_eq!(got["items"][0]["id"], serde_json::Value::from("A1"));
}

#[test]
fn search_failure_carries_status_and_body() {
    let err = search_response(404, "Not Found", "\"not found\"").unwrap_err();
    assert!(err.contains("404"));
    assert!(err.contains("not found"));
    assert_eq!(err, "查询失败 (404 Not Found): \"not found\"");
}

#[test]
fn detail_failure_uses_its_own_wording() {
    let err = detail_response(500, "Internal Server Error", "boom").unwrap_err();
    assert_eq!(err, "获取详情失败 (500 Internal Server Error): boom");
}

#[test]
fn status_edges_of_the_success_range() {
    assert!(search_response(200, "OK", "1").is_ok());
    assert!(search_response(299, "", "1").is_ok());
    assert!(search_response(199, "", "1").is_err());
    assert!(search_response(300, "Multiple Choices", "1").is_err());
}

#[test]
fn blank_identifier_fails_before_any_url_exists() {
    let err = detail_endpoint_url("  ").unwrap_err();
    assert_eq!(err, "sysId 不能为空");
    assert_eq!(detail_endpoint_url("").unwrap_err(), "sysId 不能为空");
    assert_eq!(detail_endpoint_url("\t\n \u{3000}").unwrap_err(), "sysId 不能为空");
}

#[test]
fn identifier_is_trimmed_and_percent_encoded() {
    let url = detail_endpoint_url("A B").unwrap();
    assert_eq!(
        url,
        "http://timespace-china.fudan.edu.cn/gateway/geom-name/placename-object/home/placename/json/A%20B"
    );
    assert_eq!(detail_endpoint_url("  A B \u{3000}").unwrap(), url);
}

#[test]
fn identifier_encoding_covers_multibyte_text() {
    let url = detail_endpoint_url("长安").unwrap();
    assert!(url.ends_with("/json/%E9%95%BF%E5%AE%89"));
}

#[test]
fn unparsable_success_body_is_a_parse_failure_not_a_status_failure() {
    let err = detail_response(200, "OK", "not json").unwrap_err();
    assert!(err.starts_with("解析响应失败: "));
    assert!(!err.contains("获取详情失败"));
}

#[test]
fn repeating_a_detail_call_yields_the_same_result() {
    let body = "{\"id\":\"A1\",\"name\":\"长安\"}";
    let first = detail_response(200, "OK", body);
    let second = detail_response(200, "OK", body);
    assert_eq!(first.unwrap(), second.unwrap());

    let first = detail_response(200, "OK", "not json");
    let second = detail_response(200, "OK", "not json");
    assert_eq!(first.unwrap_err(), second.unwrap_err());
}

#[test]
fn transport_failure_message_embeds_the_cause() {
    assert_eq!(
        transport_failure_message("connection refused"),
        "网络请求失败: connection refused"
    );
}

#[test]
fn unreadable_body_has_a_fixed_placeholder() {
    assert_eq!(unreadable_body_placeholder(), "<无法读取响应正文>");
}

#[test]
fn endpoints_are_fixed() {
    assert_eq!(
        search_endpoint_url(),
        "http://timespace-china.fudan.edu.cn/gateway/geom-name/placename-object/home/placename"
    );
}

#[test]
fn decimal_rendering_is_exact() {
    assert_eq!(u32_decimal(0), "0");
    assert_eq!(u32_decimal(7), "7");
    assert_eq!(u32_decimal(404), "404");
    assert_eq!(u32_decimal(4294967295), "4294967295");
}

#[test]
fn trimming_matches_std() {
    let cases = ["  A B ", "\u{3000}長安\t", "x", "", "  ", "\r\nab\r\n"];
    for c in cases {
        assert_eq!(placename_relay::text::trim_copy(c), c.trim());
    }
}
