use zone_export::credentials::{validate_credential, ConfigFault, CredentialFault, Credentials};
use zone_export::export::{export_file_path, export_success_message, plan_export, ExportFault};
use zone_export::headers::{build_auth_headers, header_value_ok, HeaderFault};
use zone_export::lister::{
    batch_message, classify_transport_failure, fetched_message, ApiMessage, Domain, Lister,
    PageInfo, TransportKind, ZonePage,
};
use zone_export::numbers::u32_to_decimal;
use zone_export::urls::{export_url, zones_url};

fn domain(id: &str, name: &str) -> Domain {
    Domain { id: id.to_string(), name: name.to_string() }
}

fn page(success: bool, names: &[&str], page: u32, total_pages: u32, errors: &[&str]) -> ZonePage {
    ZonePage {
        success,
        result: names.iter().map(|n| domain(&format!("id-{}", n), n)).collect(),
        result_info: PageInfo {
            page,
            total_pages,
            count: names.len() as u32,
            total_count: 0,
        },
        errors: errors.iter().map(|m| ApiMessage { message: m.to_string() }).collect(),
    }
}

#[test]
fn credential_valid_pair_kept() {
    let c = Credentials::new(Some("k3y".to_string()), Some("me@example.com".to_string()))
        .expect("valid pair");
    assert_eq!(c.api_key, "k3y");
    assert_eq!(c.email, "me@example.com");
}

#[test]
fn credential_missing_key() {
    let r = Credentials::new(None, Some("me@example.com".to_string()));
    assert!(matches!(r, Err(ConfigFault::ApiKey(CredentialFault::Missing))));
}

#[test]
fn credential_missing_email() {
    let r = Credentials::new(Some("k3y".to_string()), None);
    assert!(matches!(r, Err(ConfigFault::Email(CredentialFault::Missing))));
}

#[test]
fn credential_empty_email() {
    let r = Credentials::new(Some("k3y".to_string()), Some("".to_string()));
    assert!(matches!(r, Err(ConfigFault::Email(CredentialFault::Empty))));
}

#[test]
fn credential_null_key_rejected() {
    let r = Credentials::new(Some("NULL".to_string()), Some("me@example.com".to_string()));
    assert!(matches!(r, Err(ConfigFault::ApiKey(CredentialFault::Placeholder))));
}

#[test]
fn credential_null_email_rejected() {
    let r = Credentials::new(Some("k3y".to_string()), Some("NULL".to_string()));
    assert!(matches!(r, Err(ConfigFault::Email(CredentialFault::Placeholder))));
}

#[test]
fn credential_value_passed_through() {
    let r = validate_credential(Some("abc".to_string()));
    assert_eq!(r.unwrap(), "abc");
}

#[test]
fn headers_exactly_three_with_credential_values() {
    let c = Credentials::new(Some("secret-key".to_string()), Some("me@example.com".to_string()))
        .unwrap();
    let hs = build_auth_headers(&c).expect("plain values are valid header values");
    assert_eq!(hs.len(), 3);
    assert_eq!(hs[0].name, "X-Auth-Email");
    assert_eq!(hs[0].value, "me@example.com");
    assert_eq!(hs[1].name, "X-Auth-Key");
    assert_eq!(hs[1].value, "secret-key");
    assert_eq!(hs[2].name, "Content-Type");
    assert_eq!(hs[2].value, "application/json");
}

#[test]
fn headers_reject_email_with_control_byte() {
    let c = Credentials::new(Some("secret-key".to_string()), Some("a\nb".to_string())).unwrap();
    let r = build_auth_headers(&c);
    assert!(matches!(r, Err(HeaderFault::Email)));
}

#[test]
fn headers_reject_key_with_control_byte() {
    let c = Credentials::new(Some("a\u{7f}b".to_string()), Some("me@example.com".to_string()))
        .unwrap();
    let r = build_auth_headers(&c);
    assert!(matches!(r, Err(HeaderFault::ApiKey)));
}

#[test]
fn header_value_bytes() {
    assert!(header_value_ok("a\tb c"));
    assert!(header_value_ok(""));
    assert!(!header_value_ok("a\nb"));
    assert!(!header_value_ok("a\u{7f}"));
}

#[test]
fn lister_two_pages_in_order() {
    let mut l = Lister::new();
    assert!(!l.is_finished());
    assert_eq!(l.page_to_request(), 1);
    let done = l.accept_page(page(true, &["a.com", "b.com"], 1, 2, &[])).unwrap();
    assert!(!done);
    assert!(!l.is_finished());
    assert_eq!(l.page_to_request(), 2);
    let done = l.accept_page(page(true, &["c.com"], 2, 2, &[])).unwrap();
    assert!(done);
    assert!(l.is_finished());
    assert!(!l.has_failed());
    let names: Vec<String> = l.into_domains().into_iter().map(|d| d.name).collect();
    assert_eq!(names, vec!["a.com", "b.com", "c.com"]);
}

#[test]
fn lister_single_page_finishes_at_once() {
    let mut l = Lister::new();
    let done = l.accept_page(page(true, &["only.com"], 1, 1, &[])).unwrap();
    assert!(done);
    let names: Vec<String> = l.into_domains().into_iter().map(|d| d.name).collect();
    assert_eq!(names, vec!["only.com"]);
}

#[test]
fn lister_empty_listing() {
    let mut l = Lister::new();
    let done = l.accept_page(page(true, &[], 1, 1, &[])).unwrap();
    assert!(done);
    assert!(l.into_domains().is_empty());
}

#[test]
fn lister_halts_on_unsuccessful_page() {
    let mut l = Lister::new();
    let done = l.accept_page(page(true, &["a.com"], 1, 3, &[])).unwrap();
    assert!(!done);
    let failure = l
        .accept_page(page(false, &[], 2, 3, &["token invalid", "zone scope missing"]))
        .unwrap_err();
    assert!(l.is_finished());
    assert!(l.has_failed());
    let lines: Vec<String> = failure.message_lines();
    assert_eq!(lines, vec!["  - token invalid", "  - zone scope missing"]);
}

#[test]
fn transport_classification() {
    assert_eq!(classify_transport_failure(Some(401)), TransportKind::Auth);
    assert_eq!(classify_transport_failure(Some(403)), TransportKind::Auth);
    assert_eq!(classify_transport_failure(Some(500)), TransportKind::Connectivity);
    assert_eq!(classify_transport_failure(None), TransportKind::Connectivity);
}

#[test]
fn listing_progress_messages() {
    assert_eq!(batch_message(12), "Fetching batch of 12 DNS records ...");
    assert_eq!(fetched_message(3), "Fetched 3 domains.");
}

#[test]
fn export_success_writes_body_verbatim() {
    let d = domain("abc", "example.com");
    let w = plan_export(&d, 200, "A example.com 1.2.3.4".to_string()).unwrap();
    assert_eq!(w.path, "./domains/example.com.txt");
    assert_eq!(w.contents, "A example.com 1.2.3.4");
}

#[test]
fn export_forbidden_plans_no_write() {
    let d = domain("abc", "example.com");
    let f = plan_export(&d, 403, "ignored".to_string()).unwrap_err();
    match f {
        ExportFault::BadStatus { domain, status } => {
            assert_eq!(domain, "example.com");
            assert_eq!(status, 403);
        }
        _ => panic!("expected a status fault"),
    }
}

#[test]
fn export_status_boundaries() {
    let d = domain("abc", "example.com");
    assert!(plan_export(&d, 199, "x".to_string()).is_err());
    assert!(plan_export(&d, 200, "x".to_string()).is_ok());
    assert!(plan_export(&d, 299, "x".to_string()).is_ok());
    assert!(plan_export(&d, 300, "x".to_string()).is_err());
}

#[test]
fn export_rerun_targets_same_file_with_latest_body() {
    let d = domain("abc", "example.com");
    let first = plan_export(&d, 200, "old records".to_string()).unwrap();
    let second = plan_export(&d, 200, "new records".to_string()).unwrap();
    assert_eq!(first.path, second.path);
    assert_eq!(second.contents, "new records");
}

#[test]
fn export_paths() {
    assert_eq!(export_file_path("example.com"), "./domains/example.com.txt");
    assert_eq!(export_file_path(""), "./domains/.txt");
}

#[test]
fn export_fault_messages() {
    let bad = ExportFault::BadStatus { domain: "example.com".to_string(), status: 403 };
    assert_eq!(
        bad.message(),
        "Error: Cloudflare API returned status code 403 when fetching DNS records for example.com"
    );
    let fetch = ExportFault::FetchFailed { domain: "example.com".to_string() };
    assert_eq!(fetch.message(), "Error: Failed to fetch DNS records for domain example.com");
    let read = ExportFault::ReadFailed { domain: "example.com".to_string() };
    assert_eq!(read.message(), "Error: Failed to read DNS records for domain example.com");
    let create = ExportFault::CreateFailed { path: "./domains/example.com.txt".to_string() };
    assert_eq!(create.message(), "Error: Failed to create file ./domains/example.com.txt");
    let write = ExportFault::WriteFailed { domain: "example.com".to_string() };
    assert_eq!(
        write.message(),
        "Error: Failed to write DNS records for domain example.com to file"
    );
    assert_eq!(
        export_success_message("example.com"),
        "Successfully exported DNS records for example.com"
    );
}

#[test]
fn request_urls() {
    assert_eq!(zones_url(1), "https://api.cloudflare.com/client/v4/zones?page=1");
    assert_eq!(zones_url(42), "https://api.cloudflare.com/client/v4/zones?page=42");
    assert_eq!(
        export_url("023e105f4ecef8ad9ca31a8372d0c353"),
        "https://api.cloudflare.com/client/v4/zones/023e105f4ecef8ad9ca31a8372d0c353/dns_records/export"
    );
}

#[test]
fn decimal_rendering() {
    assert_eq!(u32_to_decimal(0), "0");
    assert_eq!(u32_to_decimal(7), "7");
    assert_eq!(u32_to_decimal(10), "10");
    assert_eq!(u32_to_decimal(403), "403");
    assert_eq!(u32_to_decimal(4294967295), "4294967295");
}
