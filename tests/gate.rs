use hcaptcha_gate::config::{load_config, ConfigError, Configuration, RawConfig};
use hcaptcha_gate::gate::{after_body, after_reply, begin, RequestInfo, Step};
use hcaptcha_gate::pattern::{first_match, matches_any, PathPattern};
use hcaptcha_gate::text::{same_text, split_text};
use hcaptcha_gate::verification::{
    check_body_length, join_reasons, read_verification, token_from_header, verification_form,
    ExtractionError, HeaderEdit,
};

fn s(v: &str) -> Option<String> {
    Some(v.to_string())
}

fn raw() -> RawConfig {
    RawConfig {
        method: None,
        sitekey: s("site-1"),
        secret_key: s("secret-1"),
        protected_paths: s("/login, /api/*"),
        shared_secret: None,
        keep_hcaptcha_response_header: None,
        use_post_body_field: None,
        max_post_size: None,
    }
}

fn conf(r: RawConfig) -> Configuration {
    match load_config(r) {
        Ok(c) => c,
        Err(e) => panic!("configuration refused: {:?}", e),
    }
}

fn request(method: &str, path: &str) -> RequestInfo {
    RequestInfo {
        method: method.to_string(),
        path: path.to_string(),
        token_header: s("tok-abc"),
        content_length: None,
        client_ip: s("192.0.2.7"),
    }
}

fn edits(step: Step) -> Vec<(String, Option<String>)> {
    match step {
        Step::Forward(e) => e.into_iter().map(|HeaderEdit { name, value }| (name, value)).collect(),
        _ => panic!("expected the request to be forwarded"),
    }
}

fn is_reject(step: &Step, status: u16) -> bool {
    matches!(step, Step::Reject(s) if *s == status)
}

#[test]
fn defaults_are_applied() {
    let c = conf(raw());
    assert_eq!(c.method, "POST");
    assert_eq!(c.max_post_size, 1048576);
    assert_eq!(c.keep_hcaptcha_response_header, 0);
    assert!(c.shared_secret.is_none());
    let texts: Vec<&str> = c.protected_paths.iter().map(|p| p.as_str()).collect();
    assert_eq!(texts, vec!["/login", "/api/*"]);
}

#[test]
fn method_is_upper_cased_and_numbers_parsed() {
    let mut r = raw();
    r.method = s("put");
    r.keep_hcaptcha_response_header = s("1");
    r.max_post_size = s("2048");
    let c = conf(r);
    assert_eq!(c.method, "PUT");
    assert_eq!(c.keep_hcaptcha_response_header, 1);
    assert_eq!(c.max_post_size, 2048);
}

#[test]
fn patterns_are_trimmed_and_invalid_ones_dropped() {
    let mut r = raw();
    r.protected_paths = s(" /a/* ,, [ ,  /b ,");
    let c = conf(r);
    let texts: Vec<&str> = c.protected_paths.iter().map(|p| p.as_str()).collect();
    assert_eq!(texts, vec!["/a/*", "/b"]);
}

#[test]
fn missing_required_entries_are_refused() {
    let mut r = raw();
    r.sitekey = None;
    assert_eq!(load_config(r).err(), Some(ConfigError::MissingRequired));
    let mut r = raw();
    r.secret_key = s("");
    assert_eq!(load_config(r).err(), Some(ConfigError::MissingRequired));
    let mut r = raw();
    r.protected_paths = None;
    assert_eq!(load_config(r).err(), Some(ConfigError::MissingRequired));
    let mut r = raw();
    r.protected_paths = s(" , ,[");
    assert_eq!(load_config(r).err(), Some(ConfigError::MissingRequired));
}

#[test]
fn malformed_numbers_are_refused() {
    let mut r = raw();
    r.max_post_size = s("lots");
    assert_eq!(load_config(r).err(), Some(ConfigError::Malformed));
    let mut r = raw();
    r.keep_hcaptcha_response_header = s("yes");
    assert_eq!(load_config(r).err(), Some(ConfigError::Malformed));
    let mut r = raw();
    r.max_post_size = s("-1");
    assert_eq!(load_config(r).err(), Some(ConfigError::Malformed));
}

#[test]
fn invalid_configuration_answers_internal_error() {
    let mut r = raw();
    r.sitekey = None;
    let loaded = load_config(r);
    let step = begin(&loaded, &request("POST", "/login"));
    assert!(is_reject(&step, 500));
}

#[test]
fn other_method_passes_through() {
    let c = Ok(conf(raw()));
    let step = begin(&c, &request("GET", "/login"));
    assert!(edits(step).is_empty());
    let step = begin(&c, &request("post", "/login"));
    assert!(edits(step).is_empty());
}

#[test]
fn unprotected_path_passes_through() {
    let c = Ok(conf(raw()));
    let step = begin(&c, &request("POST", "/about"));
    assert!(edits(step).is_empty());
}

#[test]
fn first_pattern_in_order_wins() {
    let pats = vec![
        PathPattern::new("/api/*").unwrap(),
        PathPattern::new("/api/login").unwrap(),
    ];
    assert_eq!(first_match(&pats, "/api/login"), Some(0));
    let pats = vec![
        PathPattern::new("/api/login").unwrap(),
        PathPattern::new("/api/*").unwrap(),
    ];
    assert_eq!(first_match(&pats, "/api/login"), Some(0));
    assert_eq!(first_match(&pats, "/api/other"), Some(1));
    assert_eq!(first_match(&pats, "/web"), None);
}

#[test]
fn header_token_leads_to_verification() {
    let c = Ok(conf(raw()));
    let step = begin(&c, &request("POST", "/api/form"));
    match step {
        Step::Verify(form) => assert_eq!(
            form,
            "response=tok-abc&secret=secret-1&sitekey=site-1&remoteip=192.0.2.7"
        ),
        _ => panic!("expected a verification call"),
    }
}

#[test]
fn missing_header_token_is_unauthorized() {
    let c = Ok(conf(raw()));
    let mut req = request("POST", "/login");
    req.token_header = None;
    assert!(is_reject(&begin(&c, &req), 401));
}

#[test]
fn missing_client_address_is_unauthorized() {
    let c = Ok(conf(raw()));
    let mut req = request("POST", "/login");
    req.client_ip = None;
    assert!(is_reject(&begin(&c, &req), 401));
}

#[test]
fn body_strategy_checks_declared_length() {
    let mut r = raw();
    r.use_post_body_field = s("h-captcha-response");
    r.max_post_size = s("100");
    let c = Ok(conf(r));
    let mut req = request("POST", "/login");
    req.content_length = Some(100);
    assert!(is_reject(&begin(&c, &req), 401));
    req.content_length = None;
    assert!(is_reject(&begin(&c, &req), 401));
    req.content_length = Some(99);
    assert!(matches!(begin(&c, &req), Step::ReadBody(100)));
    assert_eq!(check_body_length(Some(100), 100), Err(ExtractionError::BodyTooLarge));
    assert_eq!(check_body_length(None, 100), Err(ExtractionError::NoContentLength));
    assert_eq!(check_body_length(Some(3), 100), Ok(()));
}

#[test]
fn body_field_token_leads_to_verification() {
    let mut r = raw();
    r.use_post_body_field = s("h-captcha-response");
    let c = conf(r);
    let req = request("POST", "/login");
    let step = after_body(&c, &req, br#"{"h-captcha-response": "body-tok", "x": 1}"#);
    match step {
        Step::Verify(form) => assert_eq!(
            form,
            "response=body-tok&secret=secret-1&sitekey=site-1&remoteip=192.0.2.7"
        ),
        _ => panic!("expected a verification call"),
    }
}

#[test]
fn malformed_body_is_unauthorized() {
    let mut r = raw();
    r.use_post_body_field = s("h-captcha-response");
    let c = conf(r);
    let req = request("POST", "/login");
    assert!(is_reject(&after_body(&c, &req, b"not json"), 401));
    assert!(is_reject(&after_body(&c, &req, br#"{"h-captcha-response": 5}"#), 401));
    assert!(is_reject(&after_body(&c, &req, br#"{"other": "x"}"#), 401));
    assert!(is_reject(&after_body(&c, &req, br#"["h-captcha-response"]"#), 401));
}

#[test]
fn successful_reply_adds_score_headers_and_drops_token() {
    let c = conf(raw());
    let body = br#"{"success": true, "score": 3, "score_reason": ["r1","r2"]}"#;
    let e = edits(after_reply(&c, Some(200), body));
    assert_eq!(
        e,
        vec![
            ("X-hCaptcha-Score".to_string(), s("3")),
            ("X-hCaptcha-Score-Reason".to_string(), s("r1 r2 ")),
            ("X-hCaptcha-Response".to_string(), None),
        ]
    );
}

#[test]
fn kept_token_header_and_shared_secret() {
    let mut r = raw();
    r.keep_hcaptcha_response_header = s("1");
    r.shared_secret = s("edge-secret");
    let c = conf(r);
    let body = br#"{"success": true, "score": -12}"#;
    let e = edits(after_reply(&c, Some(200), body));
    assert_eq!(
        e,
        vec![
            ("X-hCaptcha-Score".to_string(), s("-12")),
            ("X-hCaptcha-Edge-Secret".to_string(), s("edge-secret")),
        ]
    );
}

#[test]
fn non_integer_score_is_omitted() {
    let c = conf(raw());
    let body = br#"{"success": true, "score": "high"}"#;
    let e = edits(after_reply(&c, Some(200), body));
    assert_eq!(e, vec![("X-hCaptcha-Response".to_string(), None)]);
}

#[test]
fn refused_reply_is_unauthorized() {
    let c = conf(raw());
    assert!(is_reject(&after_reply(&c, Some(200), br#"{"success": false}"#), 401));
    assert!(is_reject(&after_reply(&c, Some(200), br#"{"score": 1}"#), 401));
    assert!(is_reject(&after_reply(&c, Some(200), br#"{"success": "true"}"#), 401));
}

#[test]
fn failed_exchange_is_unauthorized() {
    let c = conf(raw());
    let good = br#"{"success": true}"#;
    assert!(is_reject(&after_reply(&c, None, good), 401));
    assert!(is_reject(&after_reply(&c, Some(502), good), 401));
    assert!(is_reject(&after_reply(&c, Some(200), b"<html>"), 401));
    let bad_reasons = br#"{"success": true, "score_reason": ["a", 2]}"#;
    assert!(is_reject(&after_reply(&c, Some(200), bad_reasons), 401));
}

#[test]
fn refused_outcome_has_no_fields() {
    let o = read_verification(Some(200), br#"{"success": false, "score": 9}"#).unwrap();
    assert!(!o.success);
    assert!(o.score.is_none());
    assert!(o.score_reasons.is_none());
}

#[test]
fn reasons_joined_with_trailing_spaces() {
    assert_eq!(join_reasons(&vec!["r1".to_string(), "r2".to_string()]), "r1 r2 ");
    assert_eq!(join_reasons(&vec![]), "");
}

#[test]
fn form_is_built_in_order() {
    let c = conf(raw());
    assert_eq!(
        verification_form("t", &c, "::1"),
        "response=t&secret=secret-1&sitekey=site-1&remoteip=::1"
    );
}

#[test]
fn text_helpers() {
    assert_eq!(split_text("a,,b", ','), vec!["a", "", "b"]);
    assert_eq!(split_text("", ','), vec![""]);
    assert!(same_text("abc", "abc"));
    assert!(!same_text("abc", "abd"));
    assert!(!same_text("abc", "ab"));
}

#[test]
fn header_token_extraction() {
    assert_eq!(token_from_header(&s("abc")), Ok("abc".to_string()));
    assert_eq!(token_from_header(&None), Err(ExtractionError::MissingHeader));
}

#[test]
fn any_pattern_matches() {
    let pats = vec![PathPattern::new("/a/*").unwrap(), PathPattern::new("/b").unwrap()];
    assert!(matches_any(&pats, "/a/x"));
    assert!(matches_any(&pats, "/b"));
    assert!(!matches_any(&pats, "/c"));
    assert!(!matches_any(&pats, "/B"));
    assert!(PathPattern::new("[").is_none());
}
