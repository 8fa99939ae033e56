use bubble_relay::relay::{
    classify_response, contains, fallback_body, is_allowed_host, plan_request,
    resolve_media_page, same_text, target_from_path, RelayStep,
};

#[test]
fn allowlist_is_exact() {
    assert!(is_allowed_host("cdn.discordapp.com"));
    assert!(is_allowed_host("tenor.com"));
    assert!(is_allowed_host("media1.tenor.com"));
    assert!(!is_allowed_host("evilcdn.discordapp.com.attacker.com"));
    assert!(!is_allowed_host("cdn.discordapp.com.attacker.com"));
    assert!(!is_allowed_host("xtenor.com"));
    assert!(!is_allowed_host(""));
}

#[test]
fn path_loses_leading_slash() {
    assert_eq!(target_from_path("/https://a.b/c"), Some("https://a.b/c".to_string()));
    assert_eq!(target_from_path("https://a.b/c"), None);
    assert_eq!(target_from_path(""), None);
}

#[test]
fn cdn_request_is_fetched_directly() {
    assert_eq!(
        plan_request("/https://cdn.discordapp.com/attachments/1/2/cat.png"),
        RelayStep::Fetch {
            url: "https://cdn.discordapp.com/attachments/1/2/cat.png".to_string(),
            media_page: false
        }
    );
}

#[test]
fn disallowed_host_falls_back() {
    assert_eq!(plan_request("/https://evilcdn.discordapp.com.attacker.com/x.png"), RelayStep::Fallback);
    assert_eq!(plan_request("/https://example.com/x.png"), RelayStep::Fallback);
    assert_eq!(plan_request("/not a url"), RelayStep::Fallback);
    assert_eq!(fallback_body(), "nie lubie cie");
}

#[test]
fn media_page_is_scraped() {
    assert_eq!(
        plan_request("/https://tenor.com/view/cat-123"),
        RelayStep::Fetch { url: "https://tenor.com/view/cat-123".to_string(), media_page: true }
    );
    let html = "<html><div><img alt=\"x\" src=\"https://other/a.gif\"><img src=\"https://media1.tenor.com/m/abc/cat.gif\" width=\"3\"></div></html>";
    assert_eq!(
        resolve_media_page(200, html),
        RelayStep::Fetch { url: "https://media1.tenor.com/m/abc/cat.gif".to_string(), media_page: false }
    );
    assert_eq!(resolve_media_page(200, "<html>nothing</html>"), RelayStep::Fallback);
    assert_eq!(resolve_media_page(500, html), RelayStep::Fallback);
}

#[test]
fn content_type_decides() {
    assert_eq!(classify_response(200, Some("image/gif")), RelayStep::Composite { animated: true });
    assert_eq!(classify_response(200, Some("image/png")), RelayStep::Composite { animated: false });
    assert_eq!(classify_response(200, Some("text/html; charset=utf-8")), RelayStep::Fallback);
    assert_eq!(classify_response(200, None), RelayStep::Fallback);
    assert_eq!(classify_response(404, Some("image/png")), RelayStep::Fallback);
    assert_eq!(classify_response(204, Some("image/png")), RelayStep::Composite { animated: false });
}

#[test]
fn text_helpers() {
    assert!(contains("abcimagexyz", "image"));
    assert!(contains("image", "image"));
    assert!(!contains("imag", "image"));
    assert!(contains("x", ""));
    assert!(same_text("ab", "ab"));
    assert!(!same_text("ab", "abc"));
    assert!(!same_text("ab", "ac"));
}
