use qonductor_verified::credentials::{
    absolutize, extract_quoted_value, extract_script_urls, scan_and_derive_secrets, scan_app_id,
    scan_seeds, CredentialScan, StringMap,
};
use qonductor_verified::error::Error;

#[test]
fn test_scan_app_id() {
    let bundle = r#"foo production:{api:{appId:"123456789" bar"#;
    assert_eq!(scan_app_id(bundle), Some("123456789".to_string()));
}

#[test]
fn test_scan_seeds() {
    let bundle = r#"x.initialSeed("abc123",window.utimezone.europe)"#;
    let mut seeds = StringMap::new();
    scan_seeds(bundle, &mut seeds);
    assert_eq!(seeds.get("Europe"), Some("abc123".to_string()));
}

#[test]
fn test_extract_quoted_value() {
    assert_eq!(extract_quoted_value(r#"info:"hello""#, "info:"), Some("hello".to_string()));
    assert_eq!(extract_quoted_value(r#"info: "world""#, "info:"), Some("world".to_string()));
}

#[test]
fn extract_quoted_value_single_quotes() {
    assert_eq!(extract_quoted_value("extras:'abc' rest", "extras:"), Some("abc".to_string()));
}

#[test]
fn extract_quoted_value_missing_key_or_quote() {
    assert_eq!(extract_quoted_value(r#"other:"x""#, "info:"), None);
    assert_eq!(extract_quoted_value("info:abc", "info:"), None);
    assert_eq!(extract_quoted_value(r#"info:"unterminated"#, "info:"), None);
    assert_eq!(extract_quoted_value("info:   ", "info:"), None);
}

#[test]
fn scan_app_id_needs_nine_digits() {
    assert_eq!(scan_app_id(r#"production:{api:{appId:"12345678" x"#), None);
    assert_eq!(scan_app_id(r#"production:{api:{appId:"1234567890""#), Some("123456789".to_string()));
    assert_eq!(scan_app_id("no id here"), None);
}

#[test]
fn scan_seeds_capitalizes_and_skips_empty() {
    let bundle = r#"a.initialSeed("s1",window.utimezone.BERLIN) b.initialSeed("",window.utimezone.london) c.initialSeed("s3",window.utimezone.london)"#;
    let mut seeds = StringMap::new();
    scan_seeds(bundle, &mut seeds);
    assert_eq!(seeds.get("Berlin"), Some("s1".to_string()));
    assert_eq!(seeds.get("London"), Some("s3".to_string()));
    assert_eq!(seeds.len(), 2);
}

#[test]
fn absolutize_forms() {
    assert_eq!(absolutize("https://cdn.example.com/a.js"), "https://cdn.example.com/a.js");
    assert_eq!(absolutize("http://x/a.js"), "http://x/a.js");
    assert_eq!(absolutize("/resources/main.js"), "https://play.qobuz.com/resources/main.js");
    assert_eq!(absolutize("bundle.js"), "https://play.qobuz.com/bundle.js");
}

#[test]
fn extract_script_urls_sorted_and_unique() {
    let html = [
        r#"<html><script src="/resources/main.js"></script>"#,
        r#"<script src='https://cdn.example.com/lib.js'></script>"#,
        r#"<script src="/style.css"></script>"#,
        r#"<link rel="preload" as="script" href="bundle.js">"#,
        r#"<link REL="PRELOAD" AS="SCRIPT" href="/upper.js">"#,
        r#"<LINK rel="preload" as="script" href="/missed.js">"#,
        r#"<link rel="stylesheet" href="/skip.js">"#,
        r#"<script src="/resources/main.js"></script></html>"#,
    ]
    .join("");
    let urls = extract_script_urls(&html);
    assert_eq!(
        urls,
        vec![
            "https://cdn.example.com/lib.js".to_string(),
            "https://play.qobuz.com/bundle.js".to_string(),
            "https://play.qobuz.com/resources/main.js".to_string(),
            "https://play.qobuz.com/upper.js".to_string(),
        ]
    );
}

fn secret_bundle() -> String {
    // "aGVsbG8gd29ybGQh" is the URL-safe base64 of "hello world!"; the
    // last 44 characters of seed + info + extras are dropped.
    let extras = "x".repeat(44);
    format!(r#"junk /Europe stuff info:"d29ybGQh",extras:"{extras}" end"#)
}

#[test]
fn scan_and_derive_secrets_decodes_secret() {
    let mut seeds = StringMap::new();
    seeds.insert("Europe".to_string(), "aGVsbG8g".to_string());
    let mut secrets = StringMap::new();
    scan_and_derive_secrets(&secret_bundle(), &seeds, &mut secrets);
    assert_eq!(secrets.get("Europe"), Some("hello world!".to_string()));
}

#[test]
fn scan_and_derive_secrets_needs_anchor_and_length() {
    let mut seeds = StringMap::new();
    seeds.insert("Asia".to_string(), "aGVsbG8g".to_string());
    let mut secrets = StringMap::new();
    scan_and_derive_secrets(&secret_bundle(), &seeds, &mut secrets);
    assert!(secrets.is_empty());

    let mut seeds2 = StringMap::new();
    seeds2.insert("Europe".to_string(), "a".to_string());
    let short = r#"/Europe info:"b",extras:"c""#;
    scan_and_derive_secrets(short, &seeds2, &mut secrets);
    assert!(secrets.is_empty());
}

#[test]
fn credential_scan_full_flow() {
    let html = r#"<script src="https://cdn.example.com/x.js"></script><script src="/main.js"></script>"#;
    let mut scan = CredentialScan::start(html);
    assert_eq!(scan.script_urls().len(), 2);
    let url = scan.next_bundle_url();
    assert_eq!(url, Some("https://play.qobuz.com/main.js".to_string()));
    let bundle = format!(
        r#"production:{{api:{{appId:"987654321"}} a.initialSeed("aGVsbG8g",window.utimezone.europe) {}"#,
        secret_bundle()
    );
    scan.scan_bundle(&bundle);
    assert_eq!(scan.next_bundle_url(), None);
    let creds = scan.finish().unwrap();
    assert_eq!(creds.app_id, "987654321");
    assert_eq!(creds.app_secret, "hello world!");
}

#[test]
fn credential_scan_errors() {
    let scan = CredentialScan::start("<html></html>");
    assert_eq!(scan.finish(), Err(Error::InvalidResponse("no app secret found".to_string())));

    let mut scan2 = CredentialScan::start(r#"<script src="/a.js"></script>"#);
    assert!(scan2.next_bundle_url().is_some());
    let bundle = format!(r#"a.initialSeed("aGVsbG8g",window.utimezone.europe) {}"#, secret_bundle());
    scan2.scan_bundle(&bundle);
    assert_eq!(scan2.finish(), Err(Error::InvalidResponse("no app id found".to_string())));
}
