use spider_client::response::Content;

fn object(
    raw: Option<&str>,
    bytes: Option<&[u8]>,
    text: Option<&str>,
    markdown: Option<&str>,
    html2text: Option<&str>,
    screenshot: Option<&[u8]>,
) -> Content {
    Content::Object {
        raw: raw.map(|s| s.to_string()),
        bytes: bytes.map(|b| b.to_vec()),
        text: text.map(|s| s.to_string()),
        markdown: markdown.map(|s| s.to_string()),
        html2text: html2text.map(|s| s.to_string()),
        screenshot: screenshot.map(|b| b.to_vec()),
    }
}

#[test]
fn as_str_prefers_text_then_raw() {
    let c = Content::Text("plain".to_string());
    assert_eq!(c.as_str(), Some("plain"));
    let c = object(Some("raw"), None, Some("text"), Some("md"), Some("h2t"), None);
    assert_eq!(c.as_str(), Some("text"));
    let c = object(Some("raw"), None, None, Some("md"), Some("h2t"), None);
    assert_eq!(c.as_str(), Some("raw"));
    let c = object(None, None, None, Some("md"), Some("h2t"), None);
    assert_eq!(c.as_str(), Some("h2t"));
    let c = object(None, None, None, Some("md"), None, None);
    assert_eq!(c.as_str(), Some("md"));
    let c = Content::Bytes(vec![1, 2]);
    assert_eq!(c.as_str(), None);
}

#[test]
fn as_bytes_prefers_bytes_over_screenshot() {
    let c = Content::Bytes(vec![1, 2, 3]);
    assert_eq!(c.as_bytes().unwrap(), &vec![1, 2, 3]);
    let c = object(None, Some(&[4, 5]), None, None, None, Some(&[9]));
    assert_eq!(c.as_bytes().unwrap(), &vec![4, 5]);
    let c = object(None, None, None, None, None, Some(&[9]));
    assert_eq!(c.as_bytes().unwrap(), &vec![9]);
    assert_eq!(Content::Text("x".to_string()).as_bytes(), None);
}

#[test]
fn lossy_view_decodes_bytes() {
    let c = Content::Bytes(vec![0x68, 0x69]);
    assert_eq!(c.as_utf8_lossy(), Some("hi".to_string()));
    let c = Content::Bytes(vec![0x68, 0xff]);
    assert_eq!(c.as_utf8_lossy(), Some("h\u{fffd}".to_string()));
    // The object order differs from as_str: markdown before html2text.
    let c = object(None, None, None, Some("md"), Some("h2t"), None);
    assert_eq!(c.as_utf8_lossy(), Some("md".to_string()));
    let c = object(None, None, None, None, None, Some(&[1]));
    assert_eq!(c.as_utf8_lossy(), None);
}

#[test]
fn object_accessors() {
    let c = object(Some("r"), None, None, None, None, None);
    assert!(c.as_object().is_some());
    assert!(Content::Text("x".to_string()).as_object().is_none());
    assert!(object(None, None, None, None, None, Some(&[1])).has_screenshot());
    assert!(!object(None, None, None, None, None, None).has_screenshot());
}

#[test]
fn emptiness_checks_every_populated_field() {
    assert!(Content::Text("   \t\n".to_string()).is_empty());
    assert!(!Content::Text(" x ".to_string()).is_empty());
    assert!(Content::Bytes(vec![]).is_empty());
    assert!(!Content::Bytes(vec![0]).is_empty());
    // Every populated field must be blank, not just one of them.
    assert!(object(Some("  "), Some(&[]), None, None, None, None).is_empty());
    assert!(!object(Some("  "), Some(&[1]), None, None, None, None).is_empty());
    assert!(!object(Some("content"), None, None, None, None, None).is_empty());
    assert!(object(None, None, None, None, None, None).is_empty());
}

#[test]
fn plaintext_extraction_falls_back_to_bytes() {
    let c = object(None, Some(&[0x6f, 0x6b]), None, None, None, None);
    assert_eq!(c.extract_plaintext(), Some("ok".to_string()));
    let c = Content::Text("direct".to_string());
    assert_eq!(c.extract_plaintext(), Some("direct".to_string()));
}

#[test]
fn available_keys_lists_populated_forms() {
    assert_eq!(Content::Text("x".to_string()).available_keys(), vec!["string"]);
    assert_eq!(Content::Bytes(vec![]).available_keys(), vec!["bytes"]);
    let c = object(Some("r"), None, Some("t"), None, Some("h"), Some(&[1]));
    assert_eq!(c.available_keys(), vec!["raw", "text", "html2text", "screenshot"]);
}
