use morpheus_network::http::Response;

// ==================== Response Creation ====================

#[test]
fn test_new_response() {
    let response = Response::new(200);
    assert_eq!(response.status_code, 200);
    assert_eq!(response.reason, "OK");
    assert_eq!(response.version, "HTTP/1.1");
}

#[test]
fn test_new_response_404() {
    let response = Response::new(404);
    assert_eq!(response.status_code, 404);
    assert_eq!(response.reason, "Not Found");
}

// ==================== Status Checks ====================

#[test]
fn test_is_success() {
    assert!(Response::new(200).is_success());
    assert!(Response::new(201).is_success());
    assert!(Response::new(204).is_success());
    assert!(Response::new(299).is_success());
    assert!(!Response::new(300).is_success());
    assert!(!Response::new(404).is_success());
}

#[test]
fn test_is_redirect() {
    assert!(Response::new(301).is_redirect());
    assert!(Response::new(302).is_redirect());
    assert!(Response::new(307).is_redirect());
    assert!(!Response::new(200).is_redirect());
    assert!(!Response::new(404).is_redirect());
}

#[test]
fn test_is_client_error() {
    assert!(Response::new(400).is_client_error());
    assert!(Response::new(404).is_client_error());
    assert!(Response::new(499).is_client_error());
    assert!(!Response::new(200).is_client_error());
    assert!(!Response::new(500).is_client_error());
}

#[test]
fn test_is_server_error() {
    assert!(Response::new(500).is_server_error());
    assert!(Response::new(503).is_server_error());
    assert!(!Response::new(200).is_server_error());
    assert!(!Response::new(404).is_server_error());
}

// ==================== Default Reasons ====================

#[test]
fn test_default_reason() {
    assert_eq!(Response::default_reason(200), "OK");
    assert_eq!(Response::default_reason(404), "Not Found");
    assert_eq!(Response::default_reason(500), "Internal Server Error");
    assert_eq!(Response::default_reason(999), "Unknown");
}

// ==================== Basic Parsing ====================

#[test]
fn test_parse_simple_response() {
    let data = b"HTTP/1.1 200 OK\r\n\r\n";
    let (response, consumed) = Response::parse(data).unwrap();
    
    assert_eq!(response.version, "HTTP/1.1");
    assert_eq!(response.status_code, 200);
    assert_eq!(response.reason, "OK");
    assert_eq!(consumed, data.len());
}

#[test]
fn test_parse_response_with_headers() {
    let data = b"HTTP/1.1 200 OK\r\nContent-Type: text/html\r\nContent-Length: 5\r\n\r\nHello";
    let (response, _) = Response::parse(data).unwrap();
    
    assert_eq!(response.status_code, 200);
    assert_eq!(response.content_type(), Some("text/html"));
    assert_eq!(response.content_length(), Some(5));
    assert_eq!(response.body, b"Hello");
}

#[test]
fn test_parse_response_with_body() {
    let data = b"HTTP/1.1 200 OK\r\nContent-Length: 11\r\n\r\nHello World";
    let (response, _) = Response::parse(data).unwrap();
    
    assert_eq!(response.body, b"Hello World");
}

#[test]
fn test_parse_404_response() {
    let data = b"HTTP/1.1 404 Not Found\r\nContent-Length: 0\r\n\r\n";
    let (response, _) = Response::parse(data).unwrap();
    
    assert_eq!(response.status_code, 404);
    assert_eq!(response.reason, "Not Found");
    assert!(!response.is_success());
}

// ==================== Redirect Responses ====================

#[test]
fn test_parse_redirect_response() {
    let data = b"HTTP/1.1 302 Found\r\nLocation: http://example.com/new\r\n\r\n";
    let (response, _) = Response::parse(data).unwrap();
    
    assert!(response.is_redirect());
    assert_eq!(response.location(), Some("http://example.com/new"));
}

#[test]
fn test_parse_301_redirect() {
    let data = b"HTTP/1.1 301 Moved Permanently\r\nLocation: https://secure.example.com/\r\n\r\n";
    let (response, _) = Response::parse(data).unwrap();
    
    assert_eq!(response.status_code, 301);
    assert!(response.is_redirect());
    assert_eq!(response.location(), Some("https://secure.example.com/"));
}

// ==================== Chunked Responses ====================

#[test]
fn test_parse_chunked_response() {
    let data = b"HTTP/1.1 200 OK\r\nTransfer-Encoding: chunked\r\n\r\n";
    let (response, _) = Response::parse(data).unwrap();
    
    assert!(response.is_chunked());
    assert_eq!(response.content_length(), None);
}

// ==================== Headers Only ====================

#[test]
fn test_parse_headers_only() {
    let data = b"HTTP/1.1 200 OK\r\nContent-Length: 1000\r\n\r\nBody starts here...";
    let (response, body_offset) = Response::parse_headers_only(data).unwrap();
    
    assert_eq!(response.status_code, 200);
    assert_eq!(response.content_length(), Some(1000));
    assert!(response.body.is_empty()); // Body not parsed
    // 17 (status line) + 22 (header) + 2 (blank line) = 41 bytes
    assert_eq!(body_offset, 41); // Where body starts
}

// ==================== Error Cases ====================

#[test]
fn test_parse_invalid_no_headers_end() {
    let data = b"HTTP/1.1 200 OK\r\nContent-Type: text/html";
    assert!(Response::parse(data).is_err());
}

#[test]
fn test_parse_invalid_status_code() {
    let data = b"HTTP/1.1 ABC OK\r\n\r\n";
    assert!(Response::parse(data).is_err());
}

#[test]
fn test_parse_invalid_version() {
    let data = b"HTTT/1.1 200 OK\r\n\r\n";
    assert!(Response::parse(data).is_err());
}

#[test]
fn test_parse_empty_data() {
    let data = b"";
    assert!(Response::parse(data).is_err());
}

// ==================== Edge Cases ====================

#[test]
fn test_parse_no_reason_phrase() {
    let data = b"HTTP/1.1 200 \r\n\r\n";
    let (response, _) = Response::parse(data).unwrap();
    
    assert_eq!(response.status_code, 200);
    assert_eq!(response.reason, "");
}

#[test]
fn test_parse_http_10() {
    let data = b"HTTP/1.0 200 OK\r\n\r\n";
    let (response, _) = Response::parse(data).unwrap();
    
    assert_eq!(response.version, "HTTP/1.0");
}

#[test]
fn test_parse_partial_body() {
    // Body shorter than Content-Length
    let data = b"HTTP/1.1 200 OK\r\nContent-Length: 100\r\n\r\nShort";
    let (response, _) = Response::parse(data).unwrap();
    
    assert_eq!(response.body, b"Short");
}

// ==================== Real-World Responses ====================

#[test]
fn test_parse_iso_download_response() {
    let data = "HTTP/1.1 200 OK\r\nContent-Type: application/octet-stream\r\nContent-Length: 1048576000\r\nAccept-Ranges: bytes\r\nConnection: close\r\n\r\n";
    let (response, body_offset) = Response::parse_headers_only(data.as_bytes()).unwrap();
    
    assert!(response.is_success());
    assert_eq!(response.content_type(), Some("application/octet-stream"));
    assert_eq!(response.content_length(), Some(1048576000)); // ~1GB
    assert_eq!(response.headers.get("Accept-Ranges"), Some("bytes"));
    assert_eq!(body_offset, data.len());
}

#[test]
fn test_parse_head_response() {
    let data = "HTTP/1.1 200 OK\r\nContent-Type: application/x-iso9660-image\r\nContent-Length: 3221225472\r\n\r\n";
    let (response, _) = Response::parse(data.as_bytes()).unwrap();
    
    assert!(response.is_success());
    assert_eq!(response.content_length(), Some(3221225472)); // 3GB
    assert!(response.body.is_empty()); // HEAD has no body
}
