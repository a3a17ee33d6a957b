use morpheus_network::entry::{run_result, RunConfig, RunResult};
use morpheus_network::error::NetworkError;
use morpheus_network::http::headers::Headers;
use morpheus_network::http::response::Response;
use morpheus_network::mainloop::orchestrator::DownloadResult;
use morpheus_network::mainloop::states::dns::parse_ipv4;
use morpheus_network::text::{contains_ignore_case, decimal_string, str_eq_ignore_case};
use morpheus_network::url::Url;

#[test]
fn url_parse_parts() {
    let u = Url::parse("http://example.com:8080/files/a.iso?x=1").unwrap();
    assert_eq!(u.scheme, "http");
    assert_eq!(u.host, "example.com");
    assert_eq!(u.port, Some(8080));
    assert_eq!(u.path, "/files/a.iso");
    assert_eq!(u.query.as_deref(), Some("x=1"));
    assert_eq!(u.host_header(), "example.com:8080");
    assert_eq!(u.request_uri(), "/files/a.iso?x=1");
    let bare = Url::parse("http://example.com").unwrap();
    assert_eq!(bare.path, "/");
    assert_eq!(bare.host_header(), "example.com");
    assert_eq!(bare.request_uri(), "/");
}

#[test]
fn url_parse_rejects() {
    assert!(matches!(Url::parse("ftp://example.com/"), Err(NetworkError::InvalidUrl)));
    assert!(matches!(Url::parse("example.com"), Err(NetworkError::InvalidUrl)));
}

#[test]
fn error_messages() {
    assert_eq!(NetworkError::HttpError(404).message(), "HTTP error: 404");
    assert_eq!(NetworkError::DeviceError(String::from("no NIC")).message(), "Device error: no NIC");
    assert_eq!(NetworkError::Timeout.message(), "Request timed out");
}

#[test]
fn text_helpers() {
    assert!(str_eq_ignore_case("Content-Type", "content-type"));
    assert!(!str_eq_ignore_case("Content-Type", "content-typ"));
    assert!(contains_ignore_case("Transfer-Encoding: CHUNKED", "chunked"));
    assert!(!contains_ignore_case("gzip", "chunked"));
    assert_eq!(decimal_string(0), "0");
    assert_eq!(decimal_string(18446744073709551615), "18446744073709551615");
}

#[test]
fn content_length_reads_back_what_was_set() {
    let mut h = Headers::new();
    h.set("content-length", "1");
    h.set_content_length(123456);
    assert_eq!(h.content_length(), Some(123456));
    assert_eq!(h.get_all("Content-Length"), vec!["123456"]);
}

#[test]
fn ipv4_addresses_through_the_stack_type() {
    let a = parse_ipv4("10.0.2.15").unwrap();
    assert_eq!(a, smoltcp::wire::Ipv4Address::new(10, 0, 2, 15));
    assert_eq!(a.as_bytes(), &[10, 0, 2, 15]);
    assert!(parse_ipv4("10.0.2").is_none());
}

#[test]
fn response_rejects_invalid_utf8_head() {
    let data = b"HTTP/1.1 200 OK\r\nX: \xff\xfe\r\n\r\n";
    assert!(Response::parse(data).is_err());
}

#[test]
fn entry_decisions() {
    let cfg = RunConfig {
        dma_cpu_base: 0x1000,
        dma_bus_base: 0x2000,
        dma_size: 0x10000,
        tsc_freq: 2_000_000_000,
        url: "http://10.0.2.2/x.iso",
        iso_name: "x.iso",
        esp_start_lba: 0,
    };
    assert!(!cfg.write_to_disk());
    let intel = cfg.intel_config();
    assert_eq!((intel.rx_queue_size, intel.buffer_size, intel.dma_bus_base), (32, 2048, 0x2000));
    assert_eq!(run_result(DownloadResult::Success { bytes_downloaded: 5 }), RunResult::Success { bytes: 5 });
    assert_eq!(run_result(DownloadResult::Failed { reason: "x" }), RunResult::DownloadFailed);
}
