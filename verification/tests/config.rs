use nami::config::{
    config_file, default_accent, default_aliases_path, default_homepage, default_scrapes_path,
    default_search_engine, default_timeout, default_transforms_path, default_user_agent,
    ContentBlockingConfig, NetworkConfig, PrivacyConfig,
};
use nami::layout::LayoutError;

#[test]
fn default_values() {
    assert_eq!(default_homepage(), "about:blank");
    assert_eq!(default_search_engine(), "https://www.google.com/search?q=%s");
    assert_eq!(default_accent(), "#88c0d0");
    assert_eq!(default_user_agent(), "Nami/0.1.0");
    assert_eq!(default_timeout(), 30);
    let net = NetworkConfig::default();
    assert_eq!(net.timeout_secs, 30);
    assert!(net.follow_redirects);
    let privacy = PrivacyConfig::default();
    assert!(privacy.do_not_track);
    assert!(!privacy.https_only);
    assert!(ContentBlockingConfig::default().enabled);
}

#[test]
fn config_files_prefer_xdg_config_home() {
    assert_eq!(
        default_transforms_path(Some("/x/conf"), Some("/home/u")),
        "/x/conf/nami/transforms.lisp"
    );
    assert_eq!(default_aliases_path(None, Some("/home/u")), "/home/u/.config/nami/aliases.lisp");
    assert_eq!(default_scrapes_path(None, None), "./nami/scrapes.lisp");
}

#[test]
fn config_paths_join_like_unix_paths() {
    assert_eq!(config_file(Some("/x/"), None, "a.json"), "/x/nami/a.json");
    assert_eq!(config_file(Some(""), Some("/home/u"), "a.json"), "nami/a.json");
    assert_eq!(config_file(None, Some("/home/u/"), "a.json"), "/home/u/.config/nami/a.json");
    assert_eq!(config_file(Some("/x"), None, "/abs.json"), "/abs.json");
}

#[test]
fn layout_error_messages() {
    assert_eq!(LayoutError::Compute("x".to_string()).message(), "layout computation failed: x");
    assert_eq!(LayoutError::Taffy("y".to_string()).message(), "taffy error: y");
}
