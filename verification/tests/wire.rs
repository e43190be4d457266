use slint_agent_desktop::wire::{
    http_request_text, http_response, parse_request, read_response, split_words,
};

#[test]
fn requests_are_split_into_method_path_and_body() {
    let parts = parse_request(
        "POST /agent/command HTTP/1.1\r\nHost: x\r\n\r\n{\"command\":\"reset\"}",
    );
    assert_eq!(parts.method, "POST");
    assert_eq!(parts.path, "/agent/command");
    assert_eq!(parts.body, "{\"command\":\"reset\"}");

    let get = parse_request("GET /health HTTP/1.1\r\n\r\n");
    assert_eq!(get.method, "GET");
    assert_eq!(get.path, "/health");
    assert_eq!(get.body, "");

    let odd = parse_request("  GET  ");
    assert_eq!(odd.method, "GET");
    assert_eq!(odd.path, "");
    assert_eq!(odd.body, "");

    let twice = parse_request("POST / HTTP/1.1\r\n\r\nfirst\r\n\r\nsecond");
    assert_eq!(twice.body, "first");
}

#[test]
fn responses_announce_the_byte_length_of_their_body() {
    assert_eq!(
        http_response(200, "{\"a\":\"ä\"}"),
        "HTTP/1.1 200 OK\r\nContent-Type: application/json\r\nContent-Length: 10\r\nConnection: close\r\n\r\n{\"a\":\"ä\"}"
    );
    assert!(http_response(404, "{}").starts_with("HTTP/1.1 404 Not Found\r\n"));
}

#[test]
fn clients_take_the_body_of_successful_responses_only() {
    assert_eq!(
        read_response("HTTP/1.1 200 OK\r\nX: y\r\n\r\n{\"ok\":true}"),
        Ok("{\"ok\":true}".to_string())
    );
    assert_eq!(
        read_response("HTTP/1.1 400 Bad Request\r\n\r\n{\"error\":1}"),
        Err("{\"error\":1}".to_string())
    );
    assert_eq!(read_response("\r\n\r\nbody"), Err("body".to_string()));
    assert_eq!(
        read_response("HTTP/1.1 200 OK"),
        Err("invalid agent API response".to_string())
    );
}

#[test]
fn words_are_split_at_any_whitespace() {
    assert_eq!(split_words(" a\tb  c\u{3000}d "), ["a", "b", "c", "d"]);
    assert!(split_words("   ").is_empty());
}

#[test]
fn a_client_reads_back_what_the_server_wrote() {
    let body = "{\"result\":\"Wert aktualisiert\"}";
    assert_eq!(read_response(&http_response(200, body)), Ok(body.to_string()));
    assert_eq!(read_response(&http_response(400, body)), Err(body.to_string()));
    assert_eq!(read_response(&http_response(404, "")), Err(String::new()));
}

#[test]
fn requests_announce_a_json_body_and_its_byte_length() {
    assert_eq!(
        http_request_text("POST", "/agent/command", "{\"a\":\"ä\"}"),
        "POST /agent/command HTTP/1.1\r\nHost: localhost\r\nConnection: close\r\nContent-Type: application/json\r\nContent-Length: 10\r\n\r\n{\"a\":\"ä\"}"
    );
    assert_eq!(
        http_request_text("GET", "/agent/state", ""),
        "GET /agent/state HTTP/1.1\r\nHost: localhost\r\nConnection: close\r\n\r\n"
    );
    let parts = parse_request(&http_request_text("POST", "/agent/command", "{}"));
    assert_eq!(parts.method, "POST");
    assert_eq!(parts.path, "/agent/command");
    assert_eq!(parts.body, "{}");
}
