use bpi_rs::headers::{RequestHeaders, ORIGIN, REFERER, USER_AGENT};
use bpi_rs::live::{add_silent_user_form, del_silent_user_form, list_silent_users_form};
use bpi_rs::BpiError;

fn pairs(v: &[(&str, &str)]) -> Vec<(String, String)> {
    v.iter().map(|(a, b)| (a.to_string(), b.to_string())).collect()
}

#[test]
fn decorating_twice_equals_once() {
    let mut h = RequestHeaders::new();
    h.set("Accept", "*/*");
    let once = h.clone().with_bilibili_headers();
    let twice = h.with_bilibili_headers().with_bilibili_headers();
    assert_eq!(once.entries(), twice.entries());
    assert_eq!(
        once.entries(),
        &pairs(&[
            ("Accept", "*/*"),
            ("User-Agent", USER_AGENT),
            ("Referer", REFERER),
            ("Origin", ORIGIN),
        ])
    );
}

#[test]
fn decorating_overwrites_earlier_values() {
    let mut h = RequestHeaders::new();
    h.set("Referer", "https://example.com/");
    h.set("User-Agent", "curl");
    let d = h.with_bilibili_headers();
    assert_eq!(
        d.entries(),
        &pairs(&[("Referer", REFERER), ("User-Agent", USER_AGENT), ("Origin", ORIGIN)])
    );
}

#[test]
fn user_agent_alone() {
    let d = RequestHeaders::new().with_user_agent();
    assert_eq!(d.entries(), &pairs(&[("User-Agent", USER_AGENT)]));
}

#[test]
fn add_form_fields() {
    let f = add_silent_user_form(3818081, 316183842, -1, Some("tok".to_string())).unwrap();
    assert_eq!(
        f,
        pairs(&[
            ("room_id", "3818081"),
            ("tuid", "316183842"),
            ("mobile_app", "web"),
            ("type", "1"),
            ("hour", "-1"),
            ("csrf_token", "tok"),
            ("csrf", "tok"),
        ])
    );
}

#[test]
fn list_and_del_form_fields() {
    let f = list_silent_users_form(3818081, 1, Some("t".to_string())).unwrap();
    assert_eq!(
        f,
        pairs(&[("room_id", "3818081"), ("ps", "1"), ("csrf_token", "t"), ("csrf", "t")])
    );
    let g = del_silent_user_form(-5, 0, Some("t".to_string())).unwrap();
    assert_eq!(
        g,
        pairs(&[("room_id", "-5"), ("tuid", "0"), ("csrf_token", "t"), ("csrf", "t")])
    );
}

#[test]
fn missing_credential_stops_the_call() {
    assert_eq!(add_silent_user_form(1, 2, 0, None).unwrap_err(), BpiError::MissingCredential);
    assert_eq!(list_silent_users_form(1, 2, None).unwrap_err(), BpiError::MissingCredential);
    assert_eq!(del_silent_user_form(1, 2, None).unwrap_err(), BpiError::MissingCredential);
}

#[test]
fn error_constructors() {
    assert_eq!(BpiError::http(404), BpiError::Http { status: 404 });
    assert_eq!(BpiError::network("x".to_string()), BpiError::Network { message: "x".to_string() });
    assert_eq!(BpiError::from_code(-101).code(), Some(-101));
    assert_eq!(BpiError::http(500).code(), None);
    assert_eq!(
        BpiError::from_code_message(7, "m".to_string()),
        BpiError::Api { code: 7, message: "m".to_string() }
    );
}
