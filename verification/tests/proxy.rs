use reticle::proxy::{
    adds_json_content_type, credential_header, default_content_type, default_user_agent,
    forwards_fixed_key_request_header, forwards_request_header, forwards_response_header,
    latency_header, passes_fixed_key_request_header, passes_request_header,
    passes_response_header, target_url,
};

fn s(text: &str) -> String {
    text.to_string()
}

#[test]
fn target_is_base_followed_by_path_and_query() {
    assert_eq!(
        target_url(&s("https://api.example.com"), &s("/v1/chat?stream=true")),
        "https://api.example.com/v1/chat?stream=true"
    );
    assert_eq!(target_url(&s("http://localhost:8080"), &s("/")), "http://localhost:8080/");
    assert_eq!(target_url(&s(""), &s("")), "");
}

#[test]
fn hop_headers_are_never_passed_on() {
    for name in [
        "x-proxy-target-url",
        "x-api-provider",
        "x-api-auth-header",
        "host",
        "connection",
        "keep-alive",
        "proxy-authorization",
        "te",
        "trailer",
        "transfer-encoding",
        "upgrade",
        "content-length",
        "accept-encoding",
        "origin",
    ] {
        assert!(!passes_request_header(&s(name), false), "{}", name);
        assert!(!passes_request_header(&s(name), true), "{}", name);
    }
}

#[test]
fn credentials_of_the_caller_pass_unless_a_key_is_sent() {
    for name in ["authorization", "x-api-key", "x-goog-api-key"] {
        assert!(passes_request_header(&s(name), false), "{}", name);
        assert!(!passes_request_header(&s(name), true), "{}", name);
    }
}

#[test]
fn other_request_headers_pass() {
    for name in ["content-type", "accept", "user-agent", "x-custom", "", "hosts", "x-api-keys"] {
        assert!(passes_request_header(&s(name), false), "{}", name);
        assert!(passes_request_header(&s(name), true), "{}", name);
    }
}

#[test]
fn request_header_names_are_compared_in_lower_case() {
    assert!(!forwards_request_header("Host", false));
    assert!(!forwards_request_header("X-Proxy-Target-Url", false));
    assert!(!forwards_request_header("ORIGIN", true));
    assert!(forwards_request_header("Authorization", false));
    assert!(!forwards_request_header("Authorization", true));
    assert!(!forwards_request_header("X-Goog-Api-Key", true));
    assert!(forwards_request_header("Content-Type", true));
    assert!(passes_request_header(&s("Host"), false));
}

#[test]
fn response_headers_of_the_hop_are_not_passed_back() {
    for name in ["content-encoding", "content-length", "transfer-encoding"] {
        assert!(!passes_response_header(&s(name)), "{}", name);
    }
    for name in ["content-type", "date", "x-request-id", "connection"] {
        assert!(passes_response_header(&s(name)), "{}", name);
    }
    assert!(!forwards_response_header("Content-Length"));
    assert!(!forwards_response_header("TRANSFER-ENCODING"));
    assert!(forwards_response_header("Content-Type"));
}

#[test]
fn key_under_authorization_is_a_bearer_token() {
    assert_eq!(
        credential_header(&s("Authorization"), &s("k-123")),
        (s("Authorization"), s("Bearer k-123"))
    );
}

#[test]
fn key_under_another_name_stands_alone() {
    assert_eq!(credential_header(&s("x-api-key"), &s("k-123")), (s("x-api-key"), s("k-123")));
    assert_eq!(
        credential_header(&s("authorization"), &s("k-123")),
        (s("authorization"), s("k-123"))
    );
    assert_eq!(
        credential_header(&s("X-Goog-Api-Key"), &s("")),
        (s("X-Goog-Api-Key"), s(""))
    );
}

#[test]
fn json_content_type_only_for_post_with_body_and_no_type() {
    assert!(adds_json_content_type(true, false, false));
    assert!(!adds_json_content_type(false, false, false));
    assert!(!adds_json_content_type(true, true, false));
    assert!(!adds_json_content_type(true, false, true));
    assert!(!adds_json_content_type(false, true, true));
}

#[test]
fn defaults_of_a_passed_on_request() {
    assert_eq!(default_user_agent(), "reticle-proxy/1.0");
    assert_eq!(default_content_type(), "application/json");
}

#[test]
fn latency_is_told_in_milliseconds() {
    assert_eq!(latency_header(0), (s("X-Request-Latency-Ms"), s("0")));
    assert_eq!(latency_header(1234), (s("X-Request-Latency-Ms"), s("1234")));
    assert_eq!(latency_header(u64::MAX), (s("X-Request-Latency-Ms"), u64::MAX.to_string()));
}

#[test]
fn proxy_with_its_own_key_drops_hop_headers_and_authorization() {
    for name in [
        "x-proxy-target-url",
        "host",
        "connection",
        "keep-alive",
        "proxy-authorization",
        "te",
        "trailer",
        "transfer-encoding",
        "upgrade",
        "content-length",
        "authorization",
        "accept-encoding",
    ] {
        assert!(!passes_fixed_key_request_header(&s(name)), "{}", name);
    }
    for name in ["origin", "x-api-key", "x-api-provider", "content-type", "user-agent"] {
        assert!(passes_fixed_key_request_header(&s(name)), "{}", name);
    }
    assert!(!forwards_fixed_key_request_header("Authorization"));
    assert!(forwards_fixed_key_request_header("Origin"));
}
