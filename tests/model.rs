use sitewrap::fallback::{fallback_style, glyph_for_host, seed_for_host};
use sitewrap::ids::WebAppId;
use sitewrap::model::{
    icon_id_for, index_to_permission_state, permission_state_to_index, BehaviorConfig,
    PerOriginPermissions, PermissionField, PermissionState, WebAppDefinition,
};
use sitewrap::permissions::PermissionStore;
use sitewrap::text::{contains, join, starts_with_ignoring_case, trim};
use sitewrap::weburl::{normalize_url, origin_for, ParsedUrl};

#[test]
fn permission_defaults() {
    let store = PermissionStore::default();
    assert_eq!(store.origins.len(), 0);
    let mut store = store;
    let origin = "https://example.com";
    let entry = store.get_or_default_mut(origin);
    assert_eq!(entry.notifications, PermissionState::Ask);
    assert_eq!(entry.camera, PermissionState::Ask);
}

#[test]
fn normalize_url_adds_scheme() {
    let url = normalize_url("example.com").unwrap();
    assert_eq!(url.as_str(), "https://example.com/");

    let url2 = normalize_url("http://example.com").unwrap();
    assert_eq!(url2.as_str(), "http://example.com/");
}

#[test]
fn behavior_defaults_match_spec() {
    let app = WebAppDefinition::new(
        "Example".into(),
        ParsedUrl::parse("https://example.com").unwrap(),
    );
    assert!(app.behavior.open_external_links);
    assert!(!app.behavior.show_navigation);
}

#[test]
fn origin_for_matches_normalize() {
    let url = ParsedUrl::parse("https://Example.com/path").unwrap();
    let norm = normalize_url("Example.com").unwrap();
    assert_eq!(origin_for(&url), origin_for(&norm));
}

#[test]
fn normalize_trims_and_keeps_scheme_case_insensitively() {
    let url = normalize_url("  \tHTTPS://Example.com/a \n").unwrap();
    assert_eq!(url.as_str(), "https://example.com/a");
    assert_eq!(origin_for(&url), "https://example.com");
    assert_eq!(url.host_str(), Some("example.com".to_string()));
}

#[test]
fn normalize_rejects_unparseable_input() {
    assert!(normalize_url("http://").is_none());
    assert!(normalize_url("exa mple.com").is_none());
}

#[test]
fn origin_keeps_non_default_port() {
    let url = normalize_url("http://example.com:8080/x").unwrap();
    assert_eq!(origin_for(&url), "http://example.com:8080");
    let url = normalize_url("https://example.com:443/x").unwrap();
    assert_eq!(origin_for(&url), "https://example.com");
}

#[test]
fn trim_removes_unicode_white_space() {
    assert_eq!(trim("\u{3000} a b \u{2028}"), "a b");
    assert_eq!(trim("   "), "");
    assert_eq!(trim("x"), "x");
}

#[test]
fn scheme_prefix_ignores_case() {
    assert!(starts_with_ignoring_case("HtTp://x", "http://"));
    assert!(!starts_with_ignoring_case("ftp://x", "http://"));
    assert!(!starts_with_ignoring_case("http", "http://"));
}

#[test]
fn path_join_adds_one_separator() {
    assert_eq!(join("/tmp/root", "config"), "/tmp/root/config");
    assert_eq!(join("/tmp/root/", "config"), "/tmp/root/config");
    assert_eq!(join("", "config"), "config");
}

#[test]
fn substring_search() {
    assert!(contains("navigation", "gat"));
    assert!(contains("abc", ""));
    assert!(!contains("abc", "abcd"));
    assert!(!contains("abc", "ac"));
}

#[test]
fn identifier_text_is_hyphenated_lower_hex() {
    let id = WebAppId::from_u128(0xa1a2a3a4b1b2c1c2d1d2d3d4d5d6d7d8);
    assert_eq!(id.text(), "a1a2a3a4-b1b2-c1c2-d1d2-d3d4d5d6d7d8");
    assert_eq!(
        icon_id_for(id),
        "xyz.andriishafar.Sitewrap.webapp.a1a2a3a4-b1b2-c1c2-d1d2-d3d4d5d6d7d8"
    );
}

#[test]
fn new_definition_derives_icon_id_and_origin() {
    let url = normalize_url("https://example.com/start?x=1").unwrap();
    let app = WebAppDefinition::new("Example".to_string(), url);
    assert_eq!(app.start_url, "https://example.com/start?x=1");
    assert_eq!(app.primary_origin, "https://example.com");
    assert_eq!(app.icon_id, icon_id_for(app.id));
    assert!(app.last_launched_at.is_none());
    assert!(app.created_at.nanosecond < 1_000_000_000);
    assert_eq!(app.behavior, BehaviorConfig::default());
}

#[test]
fn permission_store_updates_one_origin() {
    let mut store = PermissionStore::default();
    store.get_or_default_mut("https://example.com").notifications = PermissionState::Allow;
    store.get_or_default_mut("https://other.test").camera = PermissionState::Block;
    let entry = store.get_or_default_mut("https://example.com");
    assert_eq!(entry.notifications, PermissionState::Allow);
    assert_eq!(entry.camera, PermissionState::Ask);
    assert_eq!(store.len(), 2);
    assert_eq!(
        store.get("https://other.test").unwrap().camera,
        PermissionState::Block
    );
    assert!(store.get("https://missing.test").is_none());
}

#[test]
fn permission_fields_and_indices() {
    let mut p = PerOriginPermissions::default();
    p.set(PermissionField::Location, PermissionState::Block);
    assert_eq!(p.get(PermissionField::Location), PermissionState::Block);
    assert_eq!(p.get(PermissionField::Microphone), PermissionState::Ask);
    assert_eq!(permission_state_to_index(PermissionState::Allow), 1);
    assert_eq!(index_to_permission_state(2), PermissionState::Block);
    assert_eq!(index_to_permission_state(7), PermissionState::Ask);
}

#[test]
fn fallback_glyph_skips_www() {
    assert_eq!(glyph_for_host("www.example.com"), 'E');
    assert_eq!(glyph_for_host("www.www.zeta.io"), 'Z');
    assert_eq!(glyph_for_host("www."), 'S');
    assert_eq!(glyph_for_host("9gag.com"), '9');
}

#[test]
fn fallback_seed_reads_digest_little_endian() {
    // SHA-256("abc") begins ba 78 16 bf 8f 01 cf ea.
    assert_eq!(seed_for_host("abc"), 0xeacf018fbf1678ba);
}

#[test]
fn fallback_style_is_deterministic() {
    let a = fallback_style(&normalize_url("https://www.example.com/a").unwrap());
    let b = fallback_style(&normalize_url("https://www.example.com/b").unwrap());
    assert_eq!(a, b);
    assert_eq!(a.glyph, 'E');
    let c = fallback_style(&normalize_url("https://other.test/").unwrap());
    assert_eq!(c.glyph, 'O');
}

#[test]
fn origin_input_parses_as_typed_first() {
    let u = sitewrap::weburl::parse_origin_input(" ftp://files.test/x ").unwrap();
    assert_eq!(u.as_str(), "ftp://files.test/x");
    assert_eq!(origin_for(&u), "ftp://files.test");
    let u = sitewrap::weburl::parse_origin_input("other.test/path").unwrap();
    assert_eq!(origin_for(&u), "https://other.test");
    assert!(sitewrap::weburl::parse_origin_input("exa mple").is_none());
}
