use agentquelia::config::schema::default_rpc_endpoint;
use agentquelia::config::SupabaseSettings;
use agentquelia::error::TransportError;
use agentquelia::http::status_text;
use agentquelia::http::status_text_with;
use agentquelia::transport::supabase::classify_response;
use agentquelia::transport::supabase::classify_response_with;
use agentquelia::transport::supabase::classify_send_failure;
use agentquelia::transport::supabase::SendFailure;
use agentquelia::transport::SupabaseClient;

fn client(anon_key: &str) -> SupabaseClient {
    SupabaseClient::new(&SupabaseSettings {
        url: "https://example.supabase.co".to_string(),
        anon_key: anon_key.to_string(),
        rpc_endpoint: default_rpc_endpoint(),
        timeout_secs: 30,
    })
    .unwrap()
}

#[test]
fn service_unavailable_is_a_retriable_server_error() {
    let outcome = classify_response(503, "try later".to_string());
    assert_eq!(
        outcome,
        Err(TransportError::ServerError { status: 503, message: "try later".to_string() })
    );
    assert!(outcome.unwrap_err().is_retriable());
}

#[test]
fn forbidden_is_a_terminal_auth_failure() {
    let outcome = classify_response(403, "denied".to_string());
    assert_eq!(outcome, Err(TransportError::AuthFailed("denied".to_string())));
    assert!(!outcome.unwrap_err().is_retriable());
    let unauthorized = classify_response(401, "who".to_string());
    assert_eq!(unauthorized, Err(TransportError::AuthFailed("who".to_string())));
}

#[test]
fn every_2xx_is_success() {
    for status in 200u16..300 {
        assert_eq!(classify_response(status, "ignored".to_string()), Ok(()));
    }
    assert!(classify_response(199, String::new()).is_err());
    assert!(classify_response(300, String::new()).is_err());
}

#[test]
fn rate_limit_carries_a_fixed_hint() {
    let outcome = classify_response(429, "slow down".to_string());
    assert_eq!(outcome, Err(TransportError::RateLimited(60)));
    assert!(outcome.unwrap_err().is_retriable());
}

#[test]
fn every_5xx_is_a_server_error() {
    for status in 500u16..600 {
        let outcome = classify_response(status, "x".to_string());
        assert_eq!(outcome, Err(TransportError::ServerError { status, message: "x".to_string() }));
        assert!(outcome.unwrap_err().is_retriable());
    }
}

#[test]
fn other_statuses_are_invalid_responses() {
    let outcome = classify_response(404, "nothing here".to_string());
    assert_eq!(
        outcome,
        Err(TransportError::InvalidResponse("HTTP 404 Not Found: nothing here".to_string()))
    );
    assert!(!outcome.unwrap_err().is_retriable());
    assert_eq!(
        classify_response(302, String::new()),
        Err(TransportError::InvalidResponse("HTTP 302 Found: ".to_string()))
    );
    assert_eq!(
        classify_response(600, "?".to_string()),
        Err(TransportError::InvalidResponse("HTTP 600 <unknown status code>: ?".to_string()))
    );
    assert_eq!(
        classify_response(7, "?".to_string()),
        Err(TransportError::InvalidResponse("HTTP 7 <unknown status code>: ?".to_string()))
    );
}

#[test]
fn status_text_joins_number_and_phrase() {
    assert_eq!(status_text(200), "200 OK");
    assert_eq!(status_text(418), "418 I'm a teapot");
    assert_eq!(status_text(799), "799 <unknown status code>");
    assert_eq!(status_text(65535), "65535 <unknown status code>");
    assert_eq!(status_text(0), "0 <unknown status code>");
}

#[test]
fn retriable_is_decided_by_the_kind_of_failure() {
    assert!(TransportError::Network("reset".to_string()).is_retriable());
    assert!(TransportError::Timeout.is_retriable());
    assert!(TransportError::RateLimited(1).is_retriable());
    assert!(TransportError::ServerError { status: 500, message: String::new() }.is_retriable());
    assert!(!TransportError::ServerError { status: 499, message: String::new() }.is_retriable());
    assert!(!TransportError::AuthFailed("x".to_string()).is_retriable());
    assert!(!TransportError::InvalidResponse("x".to_string()).is_retriable());
}

#[test]
fn send_failures_are_classified() {
    let failure = |timed_out, connect_failed| SendFailure {
        timed_out,
        connect_failed,
        text: "error sending request".to_string(),
    };
    assert_eq!(classify_send_failure(failure(true, false)), TransportError::Timeout);
    assert_eq!(classify_send_failure(failure(true, true)), TransportError::Timeout);
    assert_eq!(
        classify_send_failure(failure(false, true)),
        TransportError::Network("Connection failed: error sending request".to_string())
    );
    assert_eq!(
        classify_send_failure(failure(false, false)),
        TransportError::Network("error sending request".to_string())
    );
}

#[test]
fn delivery_is_a_post_to_the_rpc_endpoint() {
    let request = client("anon-key").insert_live_data("poi-key", 12.5f64.to_bits(), "kW").unwrap();
    assert_eq!(request.url, "https://example.supabase.co/rest/v1/rpc/insert_live_data");
    assert_eq!(
        request.headers,
        vec![
            ("apikey".to_string(), "anon-key".to_string()),
            ("content-type".to_string(), "application/json".to_string()),
        ]
    );
    assert_eq!(request.body.p_api_key, "poi-key");
    assert_eq!(f64::from_bits(request.body.p_value_bits), 12.5);
    assert_eq!(request.body.p_unit, "kW");
}

#[test]
fn key_that_cannot_stand_in_a_header_fails_the_delivery() {
    let expected = Err(TransportError::Network(
        "Invalid API key header: failed to parse header value".to_string(),
    ));
    assert_eq!(client("line\nbreak").insert_live_data("k", 0, "kW"), expected);
    assert_eq!(client("del\u{7f}").insert_live_data("k", 0, "kW"), expected);
    assert!(client("tab\tand caf\u{e9}").insert_live_data("k", 0, "kW").is_ok());
    assert!(client("").insert_live_data("k", 0, "kW").is_ok());
}

#[test]
fn client_keeps_the_timeout() {
    assert_eq!(client("k").timeout_secs(), 30);
}

#[test]
fn answers_are_classified_with_a_given_phrase() {
    let phrase = Some("Not Found".to_string());
    assert_eq!(classify_response_with(200, &phrase, "x".to_string()), Ok(()));
    assert_eq!(
        classify_response_with(404, &phrase, "x".to_string()),
        Err(TransportError::InvalidResponse("HTTP 404 Not Found: x".to_string()))
    );
    assert_eq!(
        classify_response_with(404, &None, "x".to_string()),
        Err(TransportError::InvalidResponse("HTTP 404 <unknown status code>: x".to_string()))
    );
    assert_eq!(
        classify_response_with(502, &None, "x".to_string()),
        Err(TransportError::ServerError { status: 502, message: "x".to_string() })
    );
    assert_eq!(status_text_with(404, &phrase), "404 Not Found");
}
