use nami::url_util::{display_url, extract_domain, is_https, is_internal, normalize_input, resolve_url, url_encode};

#[test]
fn resolve_absolute_url() {
    assert_eq!(resolve_url("https://base.com", "https://other.com/page"), "https://other.com/page");
}

#[test]
fn resolve_relative_path() {
    assert_eq!(resolve_url("https://example.com/page", "/about"), "https://example.com/about");
}

#[test]
fn resolve_relative_file() {
    assert_eq!(
        resolve_url("https://example.com/dir/page", "other.html"),
        "https://example.com/dir/other.html"
    );
}

#[test]
fn resolve_protocol_relative() {
    assert_eq!(
        resolve_url("https://base.com", "//cdn.example.com/file.js"),
        "https://cdn.example.com/file.js"
    );
}

#[test]
fn normalize_full_url() {
    assert_eq!(
        normalize_input("https://example.com", "https://google.com/search?q=%s"),
        "https://example.com"
    );
}

#[test]
fn normalize_domain() {
    assert_eq!(normalize_input("example.com", "https://google.com/search?q=%s"), "https://example.com");
}

#[test]
fn normalize_search_query() {
    let result = normalize_input("rust programming", "https://google.com/search?q=%s");
    assert!(result.starts_with("https://google.com/search?q="));
    assert!(result.contains("rust"));
}

#[test]
fn normalize_empty() {
    assert_eq!(normalize_input("", "https://google.com/search?q=%s"), "about:blank");
}

#[test]
fn extract_domain_basic() {
    assert_eq!(extract_domain("https://example.com/path"), "example.com");
    assert_eq!(extract_domain("https://sub.example.com:8080/"), "sub.example.com");
}

#[test]
fn is_https_check() {
    assert!(is_https("https://example.com"));
    assert!(!is_https("http://example.com"));
}

#[test]
fn display_url_truncation() {
    assert_eq!(display_url("https://example.com", 30), "example.com");
    assert_eq!(display_url("https://example.com/very/long/path/that/exceeds", 20), "example.com/very/...");
}

#[test]
fn search_query_is_encoded() {
    assert_eq!(
        normalize_input("  rust & c++ ", "https://s.example/?q=%s&x=%s"),
        "https://s.example/?q=rust+%26+c%2B%2B&x=rust+%26+c%2B%2B"
    );
}

#[test]
fn url_encoding_of_bytes() {
    assert_eq!(url_encode("a-b_c.d~e f"), "a-b_c.d~e+f");
    assert_eq!(url_encode("é/?"), "%C3%A9%2F%3F");
}

#[test]
fn special_links_are_kept() {
    assert_eq!(resolve_url("https://a.com/x", "mailto:me@a.com"), "mailto:me@a.com");
    assert_eq!(resolve_url("https://a.com/x", "javascript:void(0)"), "javascript:void(0)");
    assert_eq!(resolve_url("http://a.com/x", "//b.com/y"), "http://b.com/y");
}

#[test]
fn unresolvable_link_is_kept() {
    assert_eq!(resolve_url("not a base url", "page.html"), "page.html");
}

#[test]
fn localhost_and_scheme_inputs() {
    assert_eq!(normalize_input("localhost:8080", "e/%s"), "https://localhost:8080");
    assert_eq!(normalize_input("about:history", "e/%s"), "about:history");
    assert_eq!(normalize_input("ftp://x", "e/%s"), "https://ftp://x");
}

#[test]
fn extract_domain_falls_back_to_splitting() {
    assert_eq!(extract_domain("example.com/path"), "example.com");
    assert_eq!(extract_domain("mailto:someone@example.com"), "");
}

#[test]
fn internal_pages_and_short_limits() {
    assert!(is_internal("about:blank"));
    assert!(!is_internal("https://about.com"));
    assert_eq!(display_url("http://example.com/", 2), "...");
}

#[test]
fn normalizing_twice_changes_nothing() {
    let engine = "https://search.example/?q=%s&lang=%s";
    for input in ["", "  example.com ", "rust é lang", "https://a.b/c", "localhost:8080", "about:config"] {
        let once = normalize_input(input, engine);
        assert_eq!(normalize_input(&once, engine), once);
    }
    assert_eq!(
        normalize_input("rust é lang", engine),
        "https://search.example/?q=rust+%C3%A9+lang&lang=rust+%C3%A9+lang"
    );
}

#[test]
fn display_url_counts_bytes_and_cuts_at_char_boundaries() {
    assert_eq!(display_url("aéé", 4), "a...");
    assert_eq!(display_url("aéé", 5), "aéé");
    assert_eq!(display_url("https://éé.com/x", 4), "...");
    assert_eq!(display_url("https://éé.com/x", 6), "é...");
    assert_eq!(display_url("https://éé.com/x", 7), "éé...");
}
