use ai_api_backend::http::{
    invalid_json_response, not_found_response, on_decoded, preflight_response, reply_response,
    route, route_of, start, starts_with, ChatStep, HttpRequest, HttpResponse, Route, Start,
};
use ai_api_backend::turn::{ConversationTurn, IncomingMessage, IncomingPayload};

fn request(method: &str, url: &str, body: &[u8]) -> HttpRequest {
    HttpRequest {
        method: method.to_string(),
        url: url.to_string(),
        headers: vec![("Content-Type".to_string(), "application/json".to_string())],
        body: body.to_vec(),
    }
}

fn header(name: &str, value: &str) -> (String, String) {
    (name.to_string(), value.to_string())
}

fn text_headers() -> Vec<(String, String)> {
    vec![header("Content-Type", "text/plain"), header("Access-Control-Allow-Origin", "*")]
}

fn responded(step: Start) -> HttpResponse {
    match step {
        Start::Respond(response) => response,
        Start::DecodeBody => panic!("expected an immediate response"),
    }
}

#[test]
fn preflight_has_exactly_three_cors_headers() {
    let response = preflight_response();
    assert_eq!(response.status, 204);
    assert!(response.body.is_empty());
    assert_eq!(
        response.headers,
        vec![
            header("Access-Control-Allow-Origin", "*"),
            header("Access-Control-Allow-Methods", "POST, OPTIONS"),
            header("Access-Control-Allow-Headers", "Content-Type"),
        ]
    );
}

#[test]
fn options_is_preflight_for_any_url_and_body() {
    for (url, body) in [("/chat", &b"{}"[..]), ("/anything", &b"not json"[..]), ("", &b""[..])] {
        let response = responded(start(&request("OPTIONS", url, body)));
        assert_eq!(response, preflight_response());
    }
}

#[test]
fn options_method_is_case_insensitive() {
    assert_eq!(route(&request("options", "/x", b"")), Route::Preflight);
    assert_eq!(route(&request("OpTiOnS", "/chat", b"")), Route::Preflight);
}

#[test]
fn post_chat_decodes_body() {
    let step = start(&request("POST", "/chat", b"{\"messages\":[]}"));
    assert!(matches!(step, Start::DecodeBody));
}

#[test]
fn post_method_is_case_insensitive() {
    assert_eq!(route(&request("post", "/chat", b"")), Route::Chat);
}

#[test]
fn post_chatbot_goes_to_chat_handler() {
    assert_eq!(route(&request("POST", "/chatbot", b"")), Route::Chat);
    assert!(matches!(start(&request("POST", "/chatbot", b"")), Start::DecodeBody));
    assert_eq!(route(&request("POST", "/chat/", b"")), Route::Chat);
    assert_eq!(route(&request("POST", "/chat123", b"")), Route::Chat);
}

#[test]
fn get_chat_is_not_found() {
    let response = responded(start(&request("GET", "/chat", b"")));
    assert_eq!(response.status, 404);
    assert_eq!(response.body, b"Not Found".to_vec());
    assert_eq!(response.headers, text_headers());
}

#[test]
fn post_elsewhere_is_not_found() {
    assert_eq!(route(&request("POST", "/", b"")), Route::NotFound);
    assert_eq!(route(&request("POST", "/cha", b"")), Route::NotFound);
    assert_eq!(route(&request("POST", "/api/chat", b"")), Route::NotFound);
    assert_eq!(responded(start(&request("PUT", "/chat", b""))), not_found_response());
}

#[test]
fn route_of_takes_the_upper_case_method() {
    assert_eq!(route_of("OPTIONS", "/"), Route::Preflight);
    assert_eq!(route_of("POST", "/chat"), Route::Chat);
    assert_eq!(route_of("post", "/chat"), Route::NotFound);
    assert_eq!(route_of("GET", "/chat"), Route::NotFound);
}

#[test]
fn prefix_check() {
    assert!(starts_with("/chat", "/chat"));
    assert!(starts_with("/chatbot", "/chat"));
    assert!(starts_with("anything", ""));
    assert!(!starts_with("/cha", "/chat"));
    assert!(!starts_with("/Chat", "/chat"));
    assert!(!starts_with("", "/chat"));
}

#[test]
fn decode_failure_is_bad_request() {
    let error = "missing field `messages` at line 1 column 2";
    let step = on_decoded(Err(error.to_string()));
    let response = match step {
        ChatStep::Respond(response) => response,
        ChatStep::Infer(_) => panic!("expected a 400 response"),
    };
    assert_eq!(response.status, 400);
    assert_eq!(response.headers, text_headers());
    assert!(response.body.starts_with(b"Invalid JSON: "));
    assert_eq!(response.body, format!("Invalid JSON: {error}").into_bytes());
}

#[test]
fn post_chat_with_bad_body_is_bad_request() {
    let req = request("POST", "/chat", b"{}");
    assert!(matches!(start(&req), Start::DecodeBody));
    let step = on_decoded(Err("missing field `messages` at line 1 column 2".to_string()));
    match step {
        ChatStep::Respond(response) => {
            assert_eq!(response.status, 400);
            assert!(response.body.starts_with(b"Invalid JSON: "));
        }
        ChatStep::Infer(_) => panic!("expected a 400 response"),
    }
}

#[test]
fn decoded_payload_is_mapped() {
    let payload = IncomingPayload {
        messages: vec![
            IncomingMessage { role: "user".to_string(), content: "hi".to_string() },
            IncomingMessage { role: "tool".to_string(), content: "out".to_string() },
        ],
    };
    match on_decoded(Ok(payload)) {
        ChatStep::Infer(turns) => assert_eq!(
            turns,
            vec![
                ConversationTurn::User { content: "hi".to_string() },
                ConversationTurn::Tool { content: "out".to_string(), tool_call_id: String::new() },
            ]
        ),
        ChatStep::Respond(_) => panic!("expected turns for inference"),
    }
}

#[test]
fn invalid_json_body_quotes_the_error() {
    let response = invalid_json_response("EOF while parsing");
    assert_eq!(response.body, b"Invalid JSON: EOF while parsing".to_vec());
}

#[test]
fn reply_is_sent_as_utf8_text() {
    let response = reply_response("héllo".to_string());
    assert_eq!(response.status, 200);
    assert_eq!(response.headers, text_headers());
    assert_eq!(response.body, "héllo".as_bytes().to_vec());
    assert!(reply_response(String::new()).body.is_empty());
}
