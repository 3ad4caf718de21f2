use dnssd::error::Error;
use dnssd::hostname::Hostname;
use dnssd::platform::StubPlatform;
use dnssd::status::STATUS_SUCCESS;
use dnssd::txt::TxtRecords;

#[test]
fn parse_empty_hostname_is_a_platform_error() {
    let mut stub = StubPlatform::with_status(STATUS_SUCCESS);
    let r = Hostname::parse(&mut stub, "".to_string());
    assert!(matches!(r, Err(Error::PlatformError(_))));
}

#[test]
fn parse_accepted_hostname_displays_nonempty_text() {
    let mut stub = StubPlatform::with_status(STATUS_SUCCESS);
    let h = Hostname::parse(&mut stub, "alpha.local".to_string()).unwrap();
    let text = h.display_text();
    assert!(!text.is_empty());
    assert_eq!(text.as_str(), "alpha.local");
}

#[test]
fn from_verdict_accepts_with_canonical_name() {
    let verdict: Result<String, String> = Ok("Beta.Local.".to_string());
    let h = Hostname::from_verdict("beta.local".to_string(), verdict).unwrap();
    assert_eq!(h.display_text().as_str(), "Beta.Local.");
}

#[test]
fn from_verdict_falls_back_to_input_text_without_canonical_name() {
    let verdict: Result<String, String> = Ok("".to_string());
    let h = Hostname::from_verdict("beta.local".to_string(), verdict).unwrap();
    assert_eq!(h.display_text().as_str(), "beta.local");
}

#[test]
fn from_verdict_rejection_wraps_the_diagnostic() {
    let verdict: Result<String, String> = Err("malformed label".to_string());
    let r = Hostname::from_verdict("not a host".to_string(), verdict);
    match r {
        Err(Error::PlatformError(d)) => assert_eq!(d.as_str(), "malformed label"),
        _ => panic!("expected a platform error"),
    }
}

#[test]
fn txt_records_start_empty() {
    let records = TxtRecords::new();
    assert_eq!(records.len(), 0);
    assert!(records.get(&"anything".to_string()).is_none());
}

#[test]
fn txt_records_keep_every_inserted_key_retrievable() {
    let mut records = TxtRecords::new();
    records.insert("path".to_string(), "/".to_string());
    records.insert("version".to_string(), "1".to_string());
    assert_eq!(records.len(), 2);
    assert_eq!(records.get(&"path".to_string()).unwrap().as_str(), "/");
    assert_eq!(records.get(&"version".to_string()).unwrap().as_str(), "1");
    assert!(records.get(&"missing".to_string()).is_none());
}

#[test]
fn txt_records_duplicate_key_reads_as_last_inserted_value() {
    let mut records = TxtRecords::new();
    records.insert("path".to_string(), "/".to_string());
    records.insert("other".to_string(), "x".to_string());
    records.insert("path".to_string(), "/v2".to_string());
    assert_eq!(records.len(), 3);
    assert_eq!(records.get(&"path".to_string()).unwrap().as_str(), "/v2");
    assert_eq!(records.get(&"other".to_string()).unwrap().as_str(), "x");
}
