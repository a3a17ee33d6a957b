use morpheus_network::http::headers::{Header, Headers};

// ==================== Basic Operations ====================

#[test]
fn test_new_headers_empty() {
    let headers = Headers::new();
    assert!(headers.is_empty());
    assert_eq!(headers.len(), 0);
}

#[test]
fn test_add_header() {
    let mut headers = Headers::new();
    headers.add("Content-Type", "text/html");
    assert_eq!(headers.len(), 1);
    assert!(!headers.is_empty());
}

#[test]
fn test_get_header() {
    let mut headers = Headers::new();
    headers.add("Content-Type", "application/json");
    assert_eq!(headers.get("Content-Type"), Some("application/json"));
}

#[test]
fn test_get_nonexistent_header() {
    let headers = Headers::new();
    assert_eq!(headers.get("Content-Type"), None);
}

// ==================== Case Insensitivity ====================

#[test]
fn test_get_case_insensitive() {
    let mut headers = Headers::new();
    headers.add("Content-Type", "text/plain");

    assert_eq!(headers.get("content-type"), Some("text/plain"));
    assert_eq!(headers.get("CONTENT-TYPE"), Some("text/plain"));
    assert_eq!(headers.get("Content-TYPE"), Some("text/plain"));
}

#[test]
fn test_contains_case_insensitive() {
    let mut headers = Headers::new();
    headers.add("Host", "example.com");

    assert!(headers.contains("host"));
    assert!(headers.contains("HOST"));
    assert!(headers.contains("Host"));
}

// ==================== Set vs Add ====================

#[test]
fn test_add_allows_duplicates() {
    let mut headers = Headers::new();
    headers.add("Set-Cookie", "session=abc");
    headers.add("Set-Cookie", "user=123");

    assert_eq!(headers.len(), 2);
    let cookies = headers.get_all("Set-Cookie");
    assert_eq!(cookies, vec!["session=abc", "user=123"]);
}

#[test]
fn test_set_replaces_existing() {
    let mut headers = Headers::new();
    headers.set("Content-Type", "text/html");
    headers.set("Content-Type", "application/json");

    assert_eq!(headers.len(), 1);
    assert_eq!(headers.get("Content-Type"), Some("application/json"));
}

#[test]
fn test_set_replaces_case_insensitive() {
    let mut headers = Headers::new();
    headers.set("content-type", "text/html");
    headers.set("Content-Type", "application/json");

    assert_eq!(headers.len(), 1);
    assert_eq!(headers.get("content-type"), Some("application/json"));
}

// ==================== Remove ====================

#[test]
fn test_remove_header() {
    let mut headers = Headers::new();
    headers.add("Content-Type", "text/html");
    headers.add("Host", "example.com");

    let removed = headers.remove("Content-Type");
    assert_eq!(removed, 1);
    assert_eq!(headers.len(), 1);
    assert_eq!(headers.get("Content-Type"), None);
}

#[test]
fn test_remove_multiple() {
    let mut headers = Headers::new();
    headers.add("Set-Cookie", "a=1");
    headers.add("Set-Cookie", "b=2");
    headers.add("Host", "example.com");

    let removed = headers.remove("Set-Cookie");
    assert_eq!(removed, 2);
    assert_eq!(headers.len(), 1);
}

#[test]
fn test_remove_nonexistent() {
    let mut headers = Headers::new();
    headers.add("Host", "example.com");

    let removed = headers.remove("Content-Type");
    assert_eq!(removed, 0);
    assert_eq!(headers.len(), 1);
}

// ==================== Content-Length ====================

#[test]
fn test_content_length() {
    let mut headers = Headers::new();
    headers.add("Content-Length", "12345");
    assert_eq!(headers.content_length(), Some(12345));
}

#[test]
fn test_content_length_missing() {
    let headers = Headers::new();
    assert_eq!(headers.content_length(), None);
}

#[test]
fn test_content_length_invalid() {
    let mut headers = Headers::new();
    headers.add("Content-Length", "not-a-number");
    assert_eq!(headers.content_length(), None);
}

#[test]
fn test_set_content_length() {
    let mut headers = Headers::new();
    headers.set_content_length(42);
    assert_eq!(headers.get("Content-Length"), Some("42"));
}

// ==================== Transfer-Encoding ====================

#[test]
fn test_is_chunked() {
    let mut headers = Headers::new();
    headers.add("Transfer-Encoding", "chunked");
    assert!(headers.is_chunked());
}

#[test]
fn test_is_chunked_case_insensitive() {
    let mut headers = Headers::new();
    headers.add("Transfer-Encoding", "CHUNKED");
    assert!(headers.is_chunked());
}

#[test]
fn test_is_not_chunked() {
    let mut headers = Headers::new();
    headers.add("Transfer-Encoding", "gzip");
    assert!(!headers.is_chunked());
}

#[test]
fn test_is_chunked_missing() {
    let headers = Headers::new();
    assert!(!headers.is_chunked());
}

// ==================== Host ====================

#[test]
fn test_host_header() {
    let mut headers = Headers::new();
    headers.set_host("example.com");
    assert_eq!(headers.host(), Some("example.com"));
}

#[test]
fn test_host_with_port() {
    let mut headers = Headers::new();
    headers.set_host("example.com:8080");
    assert_eq!(headers.host(), Some("example.com:8080"));
}

// ==================== Connection ====================

#[test]
fn test_keep_alive() {
    let mut headers = Headers::new();
    headers.add("Connection", "keep-alive");
    assert!(headers.keep_alive());
}

#[test]
fn test_keep_alive_false() {
    let mut headers = Headers::new();
    headers.add("Connection", "close");
    assert!(!headers.keep_alive());
}

// ==================== Iteration ====================

#[test]
fn test_iter() {
    let mut headers = Headers::new();
    headers.add("Host", "example.com");
    headers.add("Accept", "*/*");

    let names: Vec<&str> = headers.iter().map(|h| h.name.as_str()).collect();
    assert_eq!(names, vec!["Host", "Accept"]);
}

#[test]
fn test_clear() {
    let mut headers = Headers::new();
    headers.add("Host", "example.com");
    headers.add("Accept", "*/*");

    headers.clear();
    assert!(headers.is_empty());
}

// ==================== Wire Format ====================

#[test]
fn test_to_wire_format() {
    let mut headers = Headers::new();
    headers.add("Host", "example.com");
    headers.add("Accept", "*/*");

    let wire = headers.to_wire_format();
    assert_eq!(wire, "Host: example.com\r\nAccept: */*\r\n");
}

#[test]
fn test_to_wire_format_empty() {
    let headers = Headers::new();
    assert_eq!(headers.to_wire_format(), "");
}

#[test]
fn test_from_wire_format() {
    let data = "Content-Type: text/html\r\nContent-Length: 123\r\n\r\n";
    let (headers, consumed) = Headers::from_wire_format(data);

    assert_eq!(headers.len(), 2);
    assert_eq!(headers.get("Content-Type"), Some("text/html"));
    assert_eq!(headers.content_length(), Some(123));
    assert_eq!(consumed, data.len());
}

#[test]
fn test_from_wire_format_trims_whitespace() {
    let data = "Content-Type:   text/html  \r\n\r\n";
    let (headers, _) = Headers::from_wire_format(data);

    assert_eq!(headers.get("Content-Type"), Some("text/html"));
}

#[test]
fn test_from_wire_format_ignores_invalid() {
    let data = "ValidHeader: value\r\nInvalidLineNoColon\r\n\r\n";
    let (headers, _) = Headers::from_wire_format(data);

    assert_eq!(headers.len(), 1);
    assert_eq!(headers.get("ValidHeader"), Some("value"));
}

// ==================== Real-World Headers ====================

#[test]
fn test_typical_request_headers() {
    let mut headers = Headers::new();
    headers.set_host("api.example.com");
    headers.set("User-Agent", "MorpheusX/1.0");
    headers.set("Accept", "*/*");
    headers.set("Connection", "close");

    assert_eq!(headers.len(), 4);
    assert!(headers
        .to_wire_format()
        .contains("Host: api.example.com\r\n"));
}

#[test]
fn test_typical_response_headers() {
    let data = "HTTP/1.1 200 OK\r\nContent-Type: application/octet-stream\r\nContent-Length: 1048576\r\nConnection: close\r\n\r\n";

    // Skip the status line
    let headers_start = data.find("\r\n").unwrap() + 2;
    let (headers, _) = Headers::from_wire_format(&data[headers_start..]);

    assert_eq!(headers.content_type(), Some("application/octet-stream"));
    assert_eq!(headers.content_length(), Some(1048576));
    assert_eq!(headers.connection(), Some("close"));
}

// ==================== Header Struct ====================

#[test]
fn test_header_name_matches() {
    let header = Header::new("Content-Type", "text/html");
    assert!(header.name_matches("Content-Type"));
    assert!(header.name_matches("content-type"));
    assert!(header.name_matches("CONTENT-TYPE"));
    assert!(!header.name_matches("Content-Length"));
}

#[test]
fn wire_format_round_trip() {
    let mut headers = Headers::new();
    headers.add("Host", "10.0.2.2:8080");
    headers.add("Set-Cookie", "a=1");
    headers.add("Set-Cookie", "b=2");
    headers.add("X-Empty", "");
    let mut wire = headers.to_wire_format();
    wire.push_str("\r\n");
    let (parsed, consumed) = Headers::from_wire_format(&wire);
    assert_eq!(consumed, wire.len());
    let before: Vec<(String, String)> = headers.iter().map(|h| (h.name.clone(), h.value.clone())).collect();
    let after: Vec<(String, String)> = parsed.iter().map(|h| (h.name.clone(), h.value.clone())).collect();
    assert_eq!(before, after);
}
