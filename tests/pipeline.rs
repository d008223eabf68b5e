use bpi_rs::diagnostic::extract_excerpt;
use bpi_rs::error::code_message;
use bpi_rs::request::{check_business, decode_envelope, on_body, on_sent};
use bpi_rs::{BpiError, BpiResponse};

fn parse_value(body: &[u8]) -> Result<BpiResponse<serde_json::Value>, serde_json::Error> {
    let v: serde_json::Value = serde_json::from_slice(body)?;
    Ok(BpiResponse {
        code: v["code"].as_i64().unwrap() as i32,
        message: v["message"].as_str().unwrap().to_string(),
        data: if v["data"].is_null() { None } else { Some(v["data"].clone()) },
    })
}

#[test]
fn success_envelope_is_returned_unchanged() {
    let body = br#"{"code":0,"message":"0","data":{"x":1}}"#;
    let (r, excerpt) = decode_envelope(body, parse_value(body), true);
    assert!(excerpt.is_none());
    let resp = r.unwrap();
    assert_eq!(resp.code, 0);
    assert_eq!(resp.message, "0");
    assert_eq!(resp.data.unwrap()["x"].as_i64(), Some(1));
}

#[test]
fn business_code_with_empty_message_uses_table() {
    let body = br#"{"code":-101,"message":"","data":null}"#;
    let (r, _) = decode_envelope(body, parse_value(body), true);
    assert_eq!(
        r.unwrap_err(),
        BpiError::Api { code: -101, message: "账号未登录".to_string() }
    );
}

#[test]
fn business_code_with_zero_message_uses_table() {
    let resp = BpiResponse { code: -404, message: "0".to_string(), data: Some(5) };
    assert_eq!(
        check_business(resp).unwrap_err(),
        BpiError::Api { code: -404, message: "啥都木有".to_string() }
    );
}

#[test]
fn business_code_keeps_server_message() {
    let resp = BpiResponse { code: 10017, message: "房间不存在".to_string(), data: Some(5) };
    assert_eq!(
        check_business(resp).unwrap_err(),
        BpiError::Api { code: 10017, message: "房间不存在".to_string() }
    );
}

#[test]
fn unknown_code_without_message() {
    let resp: BpiResponse<u8> = BpiResponse { code: 123456, message: String::new(), data: None };
    assert_eq!(
        check_business(resp).unwrap_err(),
        BpiError::Api { code: 123456, message: "未知错误".to_string() }
    );
    assert_eq!(code_message(-412), "请求被拦截");
}

#[test]
fn zero_code_passes_payload() {
    let resp = BpiResponse { code: 0, message: String::new(), data: Some(vec![1u8, 2, 3]) };
    let out = check_business(resp).unwrap();
    assert_eq!(out.into_data(), Some(vec![1u8, 2, 3]));
}

#[test]
fn status_412_is_http_failure() {
    assert_eq!(on_sent(Ok(412)).unwrap_err(), BpiError::Http { status: 412 });
    assert_eq!(on_sent(Ok(199)).unwrap_err(), BpiError::Http { status: 199 });
    assert_eq!(on_sent(Ok(300)).unwrap_err(), BpiError::Http { status: 300 });
    assert!(on_sent(Ok(200)).is_ok());
    assert!(on_sent(Ok(299)).is_ok());
}

#[test]
fn transport_failures_are_network_errors() {
    assert_eq!(
        on_sent(Err("connection reset".to_string())).unwrap_err(),
        BpiError::Network { message: "connection reset".to_string() }
    );
    assert_eq!(
        on_body(Err("eof".to_string())).unwrap_err(),
        BpiError::Network { message: "获取响应体失败: eof".to_string() }
    );
    assert_eq!(on_body(Ok(vec![1, 2])).unwrap(), vec![1, 2]);
}

#[test]
fn truncated_body_is_decode_failure_with_excerpt() {
    let body = br#"{"code":0,"message":"0","data":"#;
    let (r, excerpt) = decode_envelope(body, parse_value(body), true);
    let (line, column) = match r.unwrap_err() {
        BpiError::Parse { line, column, message } => {
            assert!(!message.is_empty());
            (line, column)
        }
        other => panic!("unexpected {:?}", other),
    };
    assert_eq!(line, 1);
    assert!(column >= body.len() && column <= body.len() + 1);
    let x = excerpt.unwrap();
    assert!(x.end <= body.len());
    assert_eq!(x.start, column - 1 - 25);
    assert_eq!(x.end, body.len());
    assert_eq!(x.context, std::str::from_utf8(&body[x.start..]).unwrap());
    assert_eq!(x.caret.len(), column - 1 - x.start + 1);
    assert!(x.caret.ends_with('^'));
}

#[test]
fn truncated_body_without_diagnostics_has_no_excerpt() {
    let body = br#"{"code":0,"message":"0","data":"#;
    let (r, excerpt) = decode_envelope(body, parse_value(body), false);
    assert!(matches!(r, Err(BpiError::Parse { .. })));
    assert!(excerpt.is_none());
}

#[test]
fn invalid_utf8_body_is_decoded_lossily_for_the_excerpt() {
    let body: &[u8] = b"{\"code\":\xff}";
    let (r, excerpt) = decode_envelope(body, parse_value(body), true);
    assert!(matches!(r, Err(BpiError::Parse { .. })));
    let x = excerpt.unwrap();
    assert!(x.context.contains('\u{FFFD}'));
}

#[test]
fn excerpt_snaps_to_character_boundaries() {
    let text = "错误信息错误信息错误信息错误信息错误信息";
    for offset in 0..(text.len() + 40) {
        let x = extract_excerpt(text, offset);
        assert!(text.is_char_boundary(x.start));
        assert!(text.is_char_boundary(x.end));
        assert!(x.start <= x.end && x.end <= text.len());
        assert_eq!(x.context, &text[x.start..x.end]);
    }
    let x = extract_excerpt(text, 31);
    assert_eq!(x.start, 6);
    assert_eq!(x.end, 54);
    assert_eq!(x.caret, format!("{}^", " ".repeat(25)));
}

#[test]
fn excerpt_past_the_end_is_clamped() {
    let x = extract_excerpt("abc", 1000);
    assert_eq!((x.start, x.end), (3, 3));
    assert_eq!(x.context, "");
    let y = extract_excerpt("", 0);
    assert_eq!((y.start, y.end), (0, 0));
    assert_eq!(y.caret, "^");
}

#[test]
fn excerpt_of_ascii_window() {
    let text = "0123456789012345678901234567890123456789012345678901234567890123456789";
    let x = extract_excerpt(text, 30);
    assert_eq!((x.start, x.end), (5, 55));
    assert_eq!(x.context, &text[5..55]);
    assert_eq!(x.caret.len(), 26);
}
