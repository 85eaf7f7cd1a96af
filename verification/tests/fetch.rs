use nami::dom::{Document, Element, Node, NodeKind};
use nami::fetch::{check_https, stylesheet_urls, FetchError, FetchResult};

#[test]
fn fetch_result_fields() {
    let result = FetchResult {
        url: "https://example.com".to_string(),
        status: 200,
        content_type: "text/html".to_string(),
        body: "<html></html>".to_string(),
        headers: vec![("content-type".to_string(), "text/html".to_string())],
    };

    assert_eq!(result.status, 200);
    assert_eq!(result.content_type, "text/html");
    assert!(!result.body.is_empty());
    assert!(result.headers.iter().any(|(k, _)| k == "content-type"));
}

#[test]
fn https_only_refuses_plain_http() {
    assert!(check_https(false, "http://example.com").is_ok());
    assert!(check_https(true, "https://example.com").is_ok());
    match check_https(true, "http://example.com") {
        Err(FetchError::HttpsRequired(u)) => assert_eq!(u, "http://example.com"),
        other => panic!("unexpected {other:?}"),
    }
}

#[test]
fn linked_stylesheets_are_resolved() {
    let link = |rel: &str, href: &str| Node {
        kind: NodeKind::Element(Element {
            tag: "link".to_string(),
            attrs: vec![("rel".to_string(), rel.to_string()), ("href".to_string(), href.to_string())],
            children: Vec::new(),
        }),
    };
    let doc = Document {
        root: Node {
            kind: NodeKind::Element(Element {
                tag: "head".to_string(),
                attrs: Vec::new(),
                children: vec![link("stylesheet", "/a.css"), link("icon", "/i.png"), link("stylesheet", "b.css")],
            }),
        },
    };
    assert_eq!(
        stylesheet_urls("https://example.com/dir/page", &doc),
        vec!["https://example.com/a.css", "https://example.com/dir/b.css"]
    );
}

#[test]
fn fetch_error_messages() {
    assert_eq!(FetchError::Request("boom".to_string()).message(), "request failed: boom");
    assert_eq!(FetchError::InvalidUrl("x".to_string()).message(), "invalid url: x");
    assert_eq!(FetchError::Timeout(30).message(), "timeout after 30s");
    assert_eq!(
        FetchError::HttpStatus { status: 404, url: "https://a.com".to_string() }.message(),
        "status 404: https://a.com"
    );
    assert_eq!(
        FetchError::HttpsRequired("http://a.com".to_string()).message(),
        "HTTPS required but got HTTP url: http://a.com"
    );
    assert_eq!(
        FetchError::Blocked("ads.com".to_string()).message(),
        "blocked by content filter: ads.com"
    );
}
