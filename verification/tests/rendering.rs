use hoyolab_checkin::config::cookie_header;
use hoyolab_checkin::config::Account;
use hoyolab_checkin::headers::request_headers;
use hoyolab_checkin::registry::games;
use hoyolab_checkin::request::SignRequest;
use hoyolab_checkin::runner::outcome_line;
use hoyolab_checkin::runner::CheckinOutcome;
use hoyolab_checkin::runner::FailureReason;
use hoyolab_checkin::text::i32_dec_string;
use hoyolab_checkin::text::json_escape_string;

#[test]
fn decimal_rendering_is_exact() {
    assert_eq!(i32_dec_string(0), "0");
    assert_eq!(i32_dec_string(7), "7");
    assert_eq!(i32_dec_string(10001), "10001");
    assert_eq!(i32_dec_string(-5003), "-5003");
    assert_eq!(i32_dec_string(i32::MAX), "2147483647");
    assert_eq!(i32_dec_string(i32::MIN), "-2147483648");
}

#[test]
fn json_escaping_handles_specials() {
    assert_eq!(json_escape_string("plain"), "plain");
    assert_eq!(json_escape_string("a\"b"), "a\\\"b");
    assert_eq!(json_escape_string("a\\b"), "a\\\\b");
    assert_eq!(json_escape_string("a\nb"), "a\\u000ab");
    assert_eq!(json_escape_string(""), "");
}

#[test]
fn sign_request_body_is_the_expected_json() {
    let req = SignRequest { act_id: "e202102251931481".to_string() };
    assert_eq!(req.to_json(), r#"{"act_id":"e202102251931481"}"#);
    let parsed: serde_json::Value = serde_json::from_str(&req.to_json()).expect("invalid JSON");
    assert_eq!(
        parsed.get("act_id").and_then(|x| x.as_str()),
        Some("e202102251931481")
    );
}

#[test]
fn sign_request_body_escapes_the_activity_id() {
    let req = SignRequest { act_id: "a\"b".to_string() };
    let body = req.to_json();
    assert_eq!(body, "{\"act_id\":\"a\\\"b\"}");
    let parsed: serde_json::Value = serde_json::from_str(&body).expect("invalid JSON");
    assert_eq!(parsed.get("act_id").and_then(|x| x.as_str()), Some("a\"b"));
}

#[test]
fn cookie_header_joins_pairs_in_order() {
    assert_eq!(cookie_header(&vec![]), "");
    assert_eq!(cookie_header(&vec![("ltuid".to_string(), "1".to_string())]), "ltuid=1");
    assert_eq!(
        cookie_header(&vec![
            ("ltuid".to_string(), "1".to_string()),
            ("ltoken".to_string(), "v2tokenvalue".to_string()),
        ]),
        "ltuid=1; ltoken=v2tokenvalue"
    );
}

#[test]
fn registry_lists_the_three_games_in_order() {
    let gs = games();
    assert_eq!(gs.len(), 3);
    assert_eq!(gs[0].name, "Genshin Impact");
    assert_eq!(gs[0].act_id, "e202102251931481");
    assert_eq!(gs[0].url_get_status, "https://sg-hk4e-api.hoyolab.com/event/sol/info");
    assert_eq!(gs[0].url_sign, "https://sg-hk4e-api.hoyolab.com/event/sol/sign");
    assert_eq!(gs[0].rpc_sign_game, None);
    assert_eq!(gs[1].name, "Honkai Star Rail");
    assert_eq!(gs[1].rpc_sign_game, None);
    assert_eq!(gs[2].name, "Zenless Zone Zero");
    assert_eq!(gs[2].rpc_sign_game, Some("zzz".to_string()));
}

#[test]
fn request_headers_carry_the_portal_shape() {
    let gs = games();
    let account = Account {
        name: "A".to_string(),
        cookies: vec![("ltuid".to_string(), "1".to_string())],
    };
    let hs = request_headers(&account, &gs[0]);
    assert_eq!(hs.len(), 9);
    assert_eq!(hs[0], ("Accept".to_string(), "application/json, text/plain, */*".to_string()));
    assert_eq!(hs[1], ("Accept-Language".to_string(), "en-US,en;q=0.5".to_string()));
    assert_eq!(hs[2], ("Origin".to_string(), "https://act.hoyolab.com".to_string()));
    assert_eq!(hs[3], ("Referer".to_string(), "https://act.hoyolab.com".to_string()));
    assert_eq!(
        hs[4],
        ("Content-Type".to_string(), "application/json;charset=utf-8".to_string())
    );
    assert_eq!(hs[5].0, "User-Agent");
    assert_eq!(hs[6], ("x-rpc-app_version".to_string(), "2.34.1".to_string()));
    assert_eq!(hs[7], ("x-rpc-client_type".to_string(), "4".to_string()));
    assert_eq!(hs[8], ("Cookie".to_string(), "ltuid=1".to_string()));
}

#[test]
fn request_headers_add_the_signing_header_only_where_registered() {
    let gs = games();
    let account = Account {
        name: "A".to_string(),
        cookies: vec![("ltuid".to_string(), "1".to_string())],
    };
    let hs = request_headers(&account, &gs[2]);
    assert_eq!(hs.len(), 10);
    assert_eq!(hs[8], ("x-rpc-signgame".to_string(), "zzz".to_string()));
    assert_eq!(hs[9], ("Cookie".to_string(), "ltuid=1".to_string()));
    let none = request_headers(&account, &gs[1]);
    assert!(none.iter().all(|h| h.0 != "x-rpc-signgame"));
}

#[test]
fn outcome_lines_match_the_templates() {
    assert_eq!(
        outcome_line("A", "Genshin Impact", &CheckinOutcome::AlreadyClaimed),
        "Daily check-in already done for A on Genshin Impact!"
    );
    assert_eq!(
        outcome_line("A", "Genshin Impact", &CheckinOutcome::ClaimedNow),
        "Daily check-in successful for A on Genshin Impact!"
    );
    assert_eq!(
        outcome_line(
            "A",
            "Genshin Impact",
            &CheckinOutcome::Failed(FailureReason::StatusCheck("Invalid cookie".to_string()))
        ),
        "Failed check-in for A on Genshin Impact: Invalid cookie"
    );
    assert_eq!(
        outcome_line(
            "A",
            "Genshin Impact",
            &CheckinOutcome::Failed(FailureReason::Claim("Return code is -100".to_string()))
        ),
        "Failed to sign in for A on Genshin Impact: Return code is -100"
    );
    assert_eq!(
        outcome_line(
            "A",
            "Genshin Impact",
            &CheckinOutcome::Failed(FailureReason::RewardNotGranted)
        ),
        "ERROR: Unable to claim check-in rewards for A on Genshin Impact"
    );
}
