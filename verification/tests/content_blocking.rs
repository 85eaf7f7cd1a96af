use nami::config::ContentBlockingConfig;
use nami::content_blocking::{domain_matches, extract_domain, ContentBlocker};

fn test_config() -> ContentBlockingConfig {
    ContentBlockingConfig {
        enabled: true,
        block_trackers: true,
        block_ads: false,
        filter_lists: Vec::new(),
        blocked_domains: Vec::new(),
    }
}

#[test]
fn blocks_tracker_domains() {
    let mut blocker = ContentBlocker::new(&test_config());
    assert!(blocker.should_block("https://google-analytics.com/collect"));
    assert!(blocker.should_block("https://www.google-analytics.com/analytics.js"));
}

#[test]
fn allows_normal_domains() {
    let mut blocker = ContentBlocker::new(&test_config());
    assert!(!blocker.should_block("https://example.com/page"));
    assert!(!blocker.should_block("https://rust-lang.org/"));
}

#[test]
fn disabled_allows_everything() {
    let mut config = test_config();
    config.enabled = false;
    let mut blocker = ContentBlocker::new(&config);
    assert!(!blocker.should_block("https://google-analytics.com/collect"));
}

#[test]
fn custom_domain_blocking() {
    let mut blocker = ContentBlocker::new(&test_config());
    blocker.block_domain("evil.com");
    assert!(blocker.should_block("https://evil.com/track"));
    assert!(blocker.should_block("https://sub.evil.com/track"));

    blocker.unblock_domain("evil.com");
    assert!(!blocker.should_block("https://evil.com/track"));
}

#[test]
fn stats_tracking() {
    let mut blocker = ContentBlocker::new(&test_config());
    blocker.should_block("https://example.com/");
    blocker.should_block("https://google-analytics.com/");
    blocker.should_block("https://rust-lang.org/");

    let stats = blocker.stats();
    assert_eq!(stats.checked, 3);
    assert_eq!(stats.blocked, 1);
    assert_eq!(stats.allowed, 2);
}

#[test]
fn exception_rules() {
    let mut blocker = ContentBlocker::new(&test_config());
    blocker.load_filter_list("@@||google-analytics.com^");
    assert!(!blocker.should_block("https://google-analytics.com/collect"));
}

#[test]
fn extract_domain_from_urls() {
    assert_eq!(extract_domain("https://example.com/path"), "example.com");
    assert_eq!(extract_domain("http://sub.example.com:8080/"), "sub.example.com");
    assert_eq!(extract_domain("https://example.com"), "example.com");
}

#[test]
fn load_filter_list() {
    let mut blocker = ContentBlocker::new(&test_config());
    let filter = r#"! Comment
[Adblock Plus 2.0]
||evil-tracker.com^
||bad-ads.net^
@@||allowed-tracker.com^
/tracking.js
"#;
    blocker.load_filter_list(filter);
    assert!(blocker.should_block("https://evil-tracker.com/pixel"));
    assert!(blocker.should_block("https://bad-ads.net/ad.js"));
}

#[test]
fn url_patterns_block_anywhere_in_the_url() {
    let mut blocker = ContentBlocker::new(&test_config());
    blocker.load_filter_list("/tracking.js");
    assert!(blocker.should_block("https://cdn.example.com/lib/tracking.js?v=2"));
    assert!(!blocker.should_block("https://cdn.example.com/lib/app.js"));
}

#[test]
fn disabled_checks_are_not_counted() {
    let mut config = test_config();
    config.enabled = false;
    let mut blocker = ContentBlocker::new(&config);
    blocker.should_block("https://google-analytics.com/");
    assert_eq!(blocker.stats().checked, 0);
    blocker.set_enabled(true);
    assert!(blocker.is_enabled());
    blocker.should_block("https://google-analytics.com/");
    assert_eq!(blocker.stats().checked, 1);
    blocker.reset_stats();
    assert_eq!(blocker.stats().checked, 0);
}

#[test]
fn domain_matching_needs_a_dot_boundary() {
    assert!(domain_matches("evil.com", "evil.com"));
    assert!(domain_matches("a.b.evil.com", "evil.com"));
    assert!(!domain_matches("notevil.com", "evil.com"));
}

#[test]
fn extracted_domains_are_lower_case() {
    assert_eq!(extract_domain("https://WWW.Example.COM/x"), "www.example.com");
}

#[test]
fn blocking_a_domain_twice_keeps_one_entry() {
    let mut blocker = ContentBlocker::new(&test_config());
    let before = blocker.blocked_domain_count();
    blocker.block_domain("evil.com");
    blocker.block_domain("evil.com");
    assert_eq!(blocker.blocked_domain_count(), before + 1);
}
