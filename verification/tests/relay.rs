use github_relay::relay::{prepare, url_is_allowed, RelayError, RelayRequest};
use github_relay::response::{finish_response, interpret_response, RelayValue};
use github_relay::text::{method_is_valid, str_eq_ignore_ascii_case, u16_to_decimal};

fn req(method: &str, url: &str) -> RelayRequest {
    RelayRequest {
        method: method.to_string(),
        url: url.to_string(),
        headers: None,
        body: None,
    }
}

#[test]
fn rejects_non_github_urls() {
    for url in [
        "http://api.github.com/",
        "https://api.github.com",
        "https://github.com",
        "https://www.github.com/",
        "https://gitlab.com/",
        "",
        "api.github.com/",
    ] {
        let r = prepare(req("GET", url));
        assert_eq!(r.err().unwrap(), RelayError::InvalidTarget);
    }
}

#[test]
fn invalid_target_message() {
    let r = prepare(req("GET", "ftp://github.com/"));
    assert_eq!(
        r.err().unwrap().message(),
        "Only GitHub endpoints are allowed"
    );
}

#[test]
fn rejects_lookalike_host() {
    let r = prepare(req("GET", "https://evil.com/api.github.com/"));
    assert_eq!(r.err().unwrap(), RelayError::InvalidTarget);
}

#[test]
fn rejects_invalid_methods() {
    for m in ["GE T", "GET\n", " GET", "", "G\u{7}T", "P()ST", "ÜBER"] {
        let r = prepare(req(m, "https://api.github.com/repos/x/y"));
        match r.err().unwrap() {
            RelayError::InvalidMethod { method } => assert_eq!(method, m),
            e => panic!("expected InvalidMethod, got {:?}", e),
        }
    }
}

#[test]
fn invalid_method_message_names_the_method() {
    let r = prepare(req("GE T", "https://api.github.com/"));
    assert_eq!(r.err().unwrap().message(), "Invalid HTTP method: GE T");
}

#[test]
fn accepts_token_methods() {
    assert!(method_is_valid("GET"));
    assert!(method_is_valid("PATCH"));
    assert!(method_is_valid("get"));
    assert!(method_is_valid("M-SEARCH"));
    assert!(method_is_valid("X!#$%&'*+-.^_`|~09AZaz"));
    assert!(!method_is_valid(""));
    assert!(!method_is_valid("GET/"));
    assert!(!method_is_valid("GET GET"));
}

#[test]
fn url_allow_list_is_anchored() {
    assert!(url_is_allowed("https://api.github.com/"));
    assert!(url_is_allowed("https://api.github.com/repos/x/y"));
    assert!(url_is_allowed("https://github.com/login"));
    assert!(!url_is_allowed("https://api.github.com"));
    assert!(!url_is_allowed("https://evil.com/?https://api.github.com/"));
    assert!(!url_is_allowed("xhttps://api.github.com/"));
}

#[test]
fn caller_user_agent_is_preserved() {
    let r = prepare(RelayRequest {
        method: "GET".to_string(),
        url: "https://api.github.com/repos/x/y".to_string(),
        headers: Some(vec![("USER-AGENT".to_string(), "custom/1.0".to_string())]),
        body: None,
    });
    let out = r.ok().unwrap();
    assert_eq!(
        out.headers,
        vec![("USER-AGENT".to_string(), "custom/1.0".to_string())]
    );
}

#[test]
fn default_user_agent_is_injected_without_one() {
    let r = prepare(RelayRequest {
        method: "GET".to_string(),
        url: "https://api.github.com/repos/x/y".to_string(),
        headers: Some(vec![("Accept".to_string(), "application/json".to_string())]),
        body: None,
    });
    let out = r.ok().unwrap();
    assert_eq!(
        out.headers,
        vec![
            ("Accept".to_string(), "application/json".to_string()),
            ("User-Agent".to_string(), "AstroBoxCreatorConsole".to_string()),
        ]
    );
}

#[test]
fn default_user_agent_when_no_headers_given() {
    let out = prepare(req("GET", "https://api.github.com/repos/x/y"))
        .ok()
        .unwrap();
    assert_eq!(
        out.headers,
        vec![("User-Agent".to_string(), "AstroBoxCreatorConsole".to_string())]
    );
}

#[test]
fn prepare_keeps_method_url_and_body() {
    let out = prepare(RelayRequest {
        method: "POST".to_string(),
        url: "https://github.com/x".to_string(),
        headers: None,
        body: Some("{\"a\":1}".to_string()),
    })
    .ok()
    .unwrap();
    assert_eq!(out.method, "POST");
    assert_eq!(out.url, "https://github.com/x");
    assert_eq!(out.body, Some("{\"a\":1}".to_string()));
}

#[test]
fn success_body_parses_as_json() {
    let expected: serde_json::Value = serde_json::from_str("{\"id\":1}").unwrap();
    let r = finish_response(200, "{\"id\":1}".to_string());
    assert_eq!(r.ok().unwrap(), expected);
}

#[test]
fn upstream_error_carries_status_and_body() {
    let r = finish_response(404, "Not Found".to_string());
    let msg = r.err().unwrap();
    assert!(msg.contains("404"));
    assert!(msg.contains("Not Found"));
    assert_eq!(msg, "GitHub request failed (404): Not Found");
}

#[test]
fn non_json_success_body_becomes_a_json_string() {
    let r = finish_response(200, "plain text".to_string());
    assert_eq!(
        r.ok().unwrap(),
        serde_json::Value::String("plain text".to_string())
    );
}

#[test]
fn interpret_response_distinguishes_json_from_text() {
    match interpret_response(201, "[1,2]".to_string()).ok().unwrap() {
        RelayValue::Json(v) => {
            let expected: serde_json::Value = serde_json::from_str("[1,2]").unwrap();
            assert_eq!(v, expected);
        }
        RelayValue::Text(_) => panic!("a JSON body must be parsed"),
    }
    match interpret_response(204, "".to_string()).ok().unwrap() {
        RelayValue::Text(t) => assert_eq!(t, ""),
        RelayValue::Json(_) => panic!("an empty body is not JSON"),
    }
}

#[test]
fn into_json_passes_a_parsed_value_through() {
    let v: serde_json::Value = serde_json::from_str("{\"id\":1}").unwrap();
    assert_eq!(RelayValue::Json(v.clone()).into_json(), v);
    assert_eq!(
        RelayValue::Text("plain text".to_string()).into_json(),
        serde_json::Value::String("plain text".to_string())
    );
}

#[test]
fn every_non_success_status_fails() {
    for status in [100u16, 199, 300, 301, 403, 500, 599] {
        assert!(finish_response(status, "x".to_string()).is_err());
    }
    for status in [200u16, 201, 204, 299] {
        assert!(finish_response(status, "x".to_string()).is_ok());
    }
}

#[test]
fn transport_message_is_verbatim() {
    let e = RelayError::Transport {
        detail: "connection reset by peer".to_string(),
    };
    assert_eq!(e.message(), "connection reset by peer");
}

#[test]
fn status_renders_in_decimal() {
    assert_eq!(u16_to_decimal(0), "0");
    assert_eq!(u16_to_decimal(7), "7");
    assert_eq!(u16_to_decimal(10), "10");
    assert_eq!(u16_to_decimal(404), "404");
    assert_eq!(u16_to_decimal(65535), "65535");
}

#[test]
fn case_insensitive_comparison() {
    assert!(str_eq_ignore_ascii_case("User-Agent", "user-agent"));
    assert!(str_eq_ignore_ascii_case("USER-AGENT", "user-agent"));
    assert!(!str_eq_ignore_ascii_case("user_agent", "user-agent"));
    assert!(!str_eq_ignore_ascii_case("user-agent2", "user-agent"));
    assert!(!str_eq_ignore_ascii_case("", "a"));
}
