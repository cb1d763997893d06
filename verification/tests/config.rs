use callrx::auth::StoredCredential;
use callrx::config::{resolve_api_base_url, resolve_api_key, trim_trailing_slash};

#[test]
fn trailing_slash_is_removed() {
    assert_eq!(trim_trailing_slash("http://x/"), "http://x");
    assert_eq!(trim_trailing_slash("http://x///"), "http://x");
}

#[test]
fn url_without_trailing_slash_is_unchanged() {
    assert_eq!(trim_trailing_slash("http://x:8073"), "http://x:8073");
}

#[test]
fn trailing_slash_of_bare_slashes_leaves_nothing() {
    assert_eq!(trim_trailing_slash("///"), "");
    assert_eq!(trim_trailing_slash(""), "");
}

#[test]
fn runtime_url_wins_and_is_cleaned() {
    let url = resolve_api_base_url(Some("  https://api.example.com/  "), Some("https://baked.example.com"));
    assert_eq!(url, "https://api.example.com");
}

#[test]
fn blank_runtime_url_falls_back_to_built_in() {
    let url = resolve_api_base_url(Some("   "), Some(" https://baked.example.com// "));
    assert_eq!(url, "https://baked.example.com");
    let url = resolve_api_base_url(None, Some("https://baked.example.com"));
    assert_eq!(url, "https://baked.example.com");
}

#[test]
fn no_url_set_gives_local_fallback() {
    assert_eq!(resolve_api_base_url(None, None), "http://localhost:8073");
    assert_eq!(resolve_api_base_url(Some(""), Some("\t")), "http://localhost:8073");
}

fn stored(key: &str) -> StoredCredential {
    StoredCredential {
        api_key: key.to_string(),
        key_prefix: "crx_abc123de".to_string(),
        tier: "free".to_string(),
        created_at: "2026-01-01T00:00:00+00:00".to_string(),
    }
}

#[test]
fn environment_key_overrides_stored_login() {
    let key = resolve_api_key(Some(" crx_env "), Some(stored("crx_abc123")));
    assert_eq!(key.as_deref(), Some("crx_env"));
}

#[test]
fn blank_environment_key_uses_stored_login() {
    let key = resolve_api_key(Some("  "), Some(stored("crx_abc123")));
    assert_eq!(key.as_deref(), Some("crx_abc123"));
    let key = resolve_api_key(None, Some(stored("crx_abc123")));
    assert_eq!(key.as_deref(), Some("crx_abc123"));
}

#[test]
fn no_key_anywhere_gives_none() {
    assert_eq!(resolve_api_key(None, None), None);
    assert_eq!(resolve_api_key(Some(""), None), None);
}

#[test]
fn trimming_slashes_twice_changes_nothing() {
    for url in ["http://x//", "/", "a/b/", "plain"] {
        let once = trim_trailing_slash(url);
        assert_eq!(trim_trailing_slash(&once), once);
        assert!(!once.ends_with('/'));
        assert!(url.starts_with(once.as_str()));
    }
}
