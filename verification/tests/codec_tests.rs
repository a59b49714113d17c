use session_capture::codec::{
    from_base64, json_round_trip, page_from_json, page_to_json, to_base64, Base64Encoded,
};
use session_capture::page::Page;

#[test]
fn base64_trait_round_trip() {
    let bytes: Vec<u8> = vec![255, 0, 128, 7];
    let text = bytes.to_base64();
    assert_eq!(<Vec<u8>>::from_base64(&text).unwrap(), bytes);
}

#[test]
fn page_to_json_method_matches_free_function() {
    let page = Page {
        url: "u".to_string(),
        title: "t".to_string(),
        source: "s".to_string(),
        screenshot: None,
    };
    assert_eq!(page.to_json(), page_to_json(&page));
}

#[test]
fn base64_known_value() {
    assert_eq!(to_base64(&vec![1u8, 2, 3]), "AQID");
}

#[test]
fn base64_empty() {
    assert_eq!(to_base64(&vec![]), "");
}

#[test]
fn base64_round_trip_bytes() {
    let bytes: Vec<u8> = vec![0, 1, 2, 3, 250, 251, 252, 253, 254, 255, 137, 80, 78, 71];
    let text = to_base64(&bytes);
    assert_eq!(from_base64(&text).unwrap(), bytes);
}

#[test]
fn base64_rejects_garbage() {
    assert!(from_base64("!!!not base64!!!").is_err());
}

#[test]
fn base64_rejects_non_canonical_text() {
    // Missing padding, and set trailing bits under canonical padding: the
    // encoder produces neither, so the decoder rejects both.
    assert!(from_base64("AQI").is_err());
    assert!(from_base64("AB==").is_err());
}

#[test]
fn base64_success_reencodes_to_input() {
    let text = "AQID";
    let bytes = from_base64(text).unwrap();
    assert_eq!(to_base64(&bytes), text);
}

#[test]
fn json_exact_text_without_screenshot() {
    let page = Page {
        url: "u".to_string(),
        title: "t\"x".to_string(),
        source: "<a>\n".to_string(),
        screenshot: None,
    };
    assert_eq!(
        page_to_json(&page),
        "{\"url\":\"u\",\"title\":\"t\\\"x\",\"markup\":\"<a>\\n\",\"screenshot\":null}"
    );
}

#[test]
fn json_exact_text_with_screenshot() {
    let page = Page {
        url: "https://example.test/p".to_string(),
        title: "T".to_string(),
        source: "<html></html>".to_string(),
        screenshot: Some(vec![1, 2, 3]),
    };
    assert_eq!(
        page_to_json(&page),
        "{\"url\":\"https://example.test/p\",\"title\":\"T\",\"markup\":\"<html></html>\",\"screenshot\":\"AQID\"}"
    );
}

#[test]
fn json_round_trip_preserves_screenshot_bytes() {
    let shot: Vec<u8> = (0u8..=255).collect();
    let page = Page {
        url: "https://example.test/p".to_string(),
        title: "Portal \\ \"Home\"".to_string(),
        source: "<html>\r\n\t<body>ok</body>\n</html>".to_string(),
        screenshot: Some(shot.clone()),
    };
    let decoded = json_round_trip(&page).unwrap();
    assert_eq!(decoded.url, page.url);
    assert_eq!(decoded.title, page.title);
    assert_eq!(decoded.source, page.source);
    assert_eq!(decoded.screenshot.unwrap(), shot);
}

#[test]
fn json_reencode_is_identical() {
    let page = Page {
        url: "https://example.test/p".to_string(),
        title: "Login - App".to_string(),
        source: "<html>x</html>".to_string(),
        screenshot: Some(vec![9, 8, 7, 6]),
    };
    let text = page_to_json(&page);
    let decoded = page_from_json(&text).unwrap();
    assert_eq!(page_to_json(&decoded), text);
}

#[test]
fn json_round_trip_without_screenshot() {
    let page = Page {
        url: "https://example.test/q".to_string(),
        title: "Plain".to_string(),
        source: "<p></p>".to_string(),
        screenshot: None,
    };
    let decoded = json_round_trip(&page).unwrap();
    assert_eq!(decoded, page);
}

#[test]
fn json_rejects_malformed_text() {
    assert!(page_from_json("{\"url\":\"u\"").is_none());
    assert!(page_from_json("").is_none());
    assert!(page_from_json("{\"url\":\"u\",\"title\":\"t\",\"markup\":\"s\",\"screenshot\":\"###\"}").is_none());
}
