use clonk::portal::{
    COOKIE_DOMAIN, INPUT_FIELD, LOGGED_IN, NAME_FIELD, NO_INPUT, REDEEMED, REDEEM_ENDPOINT,
};
use clonk::record::AuthData;
use clonk::redeem::{failure_message, form_input, redeem_outcome, redeem_request, RedeemError};

fn record_with(cookies: &str) -> AuthData {
    AuthData::new("alice".to_string(), "hunter2".to_string(), cookies.to_string())
}

#[test]
fn record_new_keeps_the_three_texts() {
    let r = AuthData::new("u".to_string(), "p".to_string(), "c=1".to_string());
    assert_eq!(r.username, "u");
    assert_eq!(r.password, "p");
    assert_eq!(r.cookies, "c=1");
}

#[test]
fn redeem_replays_the_saved_cookies_exactly() {
    let record = record_with("session=abc123; theme=dark");
    let request = redeem_request(&record, "code".to_string(), None).unwrap();
    assert_eq!(request.cookies, "session=abc123; theme=dark");
}

#[test]
fn redeem_without_input_sends_undefined() {
    let record = record_with("s=1");
    let request = redeem_request(&record, "sticker".to_string(), None).unwrap();
    assert_eq!(request.name, "sticker");
    assert_eq!(request.input, "undefined");
}

#[test]
fn redeem_with_input_sends_it() {
    let record = record_with("s=1");
    let request =
        redeem_request(&record, "sticker".to_string(), Some("hello there".to_string())).unwrap();
    assert_eq!(request.name, "sticker");
    assert_eq!(request.input, "hello there");
}

#[test]
fn redeem_with_empty_input_sends_empty() {
    let record = record_with("s=1");
    let request = redeem_request(&record, "n".to_string(), Some(String::new())).unwrap();
    assert_eq!(request.input, "");
}

#[test]
fn form_input_defaults() {
    assert_eq!(form_input(None), "undefined");
    assert_eq!(form_input(Some("x".to_string())), "x");
    assert_eq!(NO_INPUT, "undefined");
}

#[test]
fn redeem_refuses_cookies_with_control_characters() {
    for bad in ["a=b\n", "a=\x7f", "\x00", "a\rb", "x\x1fy"] {
        assert!(redeem_request(&record_with(bad), "n".to_string(), None).is_none());
    }
}

#[test]
fn redeem_takes_tabs_spaces_and_text_beyond_ascii() {
    for good in ["", "a=b\tc", " a = b ", "n=caf\u{e9}", "~!@#$%^&*()", "k=\u{80}\u{ff}"] {
        let request = redeem_request(&record_with(good), "n".to_string(), None).unwrap();
        assert_eq!(request.cookies, good);
    }
}

#[test]
fn redeem_refusal_agrees_with_the_header_type() {
    for s in ["", "a=b", "a\nb", "\t", "\x7f", "\x1b[0m", "\u{e9}", " "] {
        let ours = redeem_request(&record_with(s), "n".to_string(), None).is_some();
        assert_eq!(ours, reqwest::header::HeaderValue::from_str(s).is_ok());
    }
}

#[test]
fn status_200_is_success() {
    assert_eq!(redeem_outcome(200), Ok(()));
}

#[test]
fn every_2xx_is_success_and_nothing_else() {
    for status in 0..=u16::MAX {
        let outcome = redeem_outcome(status);
        if (200..300).contains(&status) {
            assert_eq!(outcome, Ok(()));
        } else {
            assert_eq!(outcome, Err(RedeemError { status }));
        }
    }
}

#[test]
fn success_range_edges() {
    assert!(redeem_outcome(199).is_err());
    assert!(redeem_outcome(200).is_ok());
    assert!(redeem_outcome(299).is_ok());
    assert!(redeem_outcome(300).is_err());
}

#[test]
fn client_and_server_errors_carry_the_status() {
    assert_eq!(redeem_outcome(404), Err(RedeemError { status: 404 }));
    assert_eq!(redeem_outcome(401), Err(RedeemError { status: 401 }));
    assert_eq!(redeem_outcome(500), Err(RedeemError { status: 500 }));
    assert_eq!(redeem_outcome(503), Err(RedeemError { status: 503 }));
}

#[test]
fn error_message_includes_the_numeric_status() {
    let e = redeem_outcome(404).unwrap_err();
    assert_eq!(e.message(), "Failed to redeem: 404 Not Found");
    let e = redeem_outcome(500).unwrap_err();
    assert_eq!(e.message(), "Failed to redeem: 500 Internal Server Error");
    let e = redeem_outcome(302).unwrap_err();
    assert!(e.message().contains("302"));
}

#[test]
fn error_message_for_a_code_without_a_reason() {
    let e = RedeemError { status: 999 };
    assert_eq!(e.message(), "Failed to redeem: 999 <unknown status code>");
    let e = RedeemError { status: 100 };
    assert_eq!(e.message(), "Failed to redeem: 100 Continue");
}

#[test]
fn error_message_agrees_with_the_status_type() {
    for status in [100u16, 204, 301, 403, 418, 429, 502, 599, 999] {
        let shown = reqwest::StatusCode::from_u16(status).unwrap().to_string();
        assert_eq!(RedeemError { status }.message(), format!("Failed to redeem: {}", shown));
    }
}

#[test]
fn failure_message_puts_the_words_first() {
    assert_eq!(failure_message("403 Forbidden"), "Failed to redeem: 403 Forbidden");
    assert_eq!(failure_message(""), "Failed to redeem: ");
}

#[test]
fn redeem_places() {
    assert_eq!(REDEEM_ENDPOINT, "https://secure.colonq.computer/api/redeem");
    assert_eq!(COOKIE_DOMAIN, "https://secure.colonq.computer");
    assert_eq!(NAME_FIELD, "name");
    assert_eq!(INPUT_FIELD, "input");
}

#[test]
fn error_message_begins_with_the_number_for_every_code() {
    for status in 100u16..=999 {
        let message = RedeemError { status }.message();
        assert!(message.starts_with(&format!("Failed to redeem: {} ", status)));
    }
}

#[test]
fn confirmations() {
    assert_eq!(LOGGED_IN, "Successfully logged in.");
    assert_eq!(REDEEMED, "Successfully redeemed");
}
