use sitewrap::fallback::fallback_style;
use sitewrap::icons::{
    body_size_acceptable, cache_dir_from_base, content_length_acceptable, discover_icon_urls,
    icon_result, icon_size, ladder_targets, widest_frame, IconFetch, IconStep,
};
use sitewrap::weburl::normalize_url;

#[test]
fn candidates_in_order_icon_apple_favicon() {
    let base = normalize_url("https://example.com/app/").unwrap();
    let html = r#"<html><head>
        <link rel="apple-touch-icon" href="/apple.png">
        <link rel="shortcut icon" href="fav.png">
        <link rel="stylesheet" href="x.css">
        <link rel="icon">
        <link rel="icon" href="https://cdn.test/i.svg">
    </head></html>"#;
    let urls = discover_icon_urls(html, &base);
    assert_eq!(
        urls,
        vec![
            "https://example.com/app/fav.png",
            "https://cdn.test/i.svg",
            "https://example.com/apple.png",
            "https://example.com/favicon.ico",
        ]
    );
}

#[test]
fn site_with_no_icons_falls_back() {
    let base = normalize_url("https://www.noicons.test/").unwrap();
    let urls = discover_icon_urls("<html><body>hi</body></html>", &base);
    assert_eq!(urls, vec!["https://www.noicons.test/favicon.ico"]);
    assert_eq!(discover_icon_urls("", &base), vec!["https://www.noicons.test/favicon.ico"]);

    let mut fetch = IconFetch::new(urls);
    match fetch.next_step() {
        IconStep::Download(u) => assert_eq!(u, "https://www.noicons.test/favicon.ico"),
        _ => panic!("the favicon is tried first"),
    }
    fetch.record_attempt(false);
    assert!(matches!(fetch.next_step(), IconStep::Fallback));

    let first = fallback_style(&base);
    let second = fallback_style(&base);
    assert_eq!(first, second);
    assert_eq!(first.glyph, 'N');

    let targets = ladder_targets("/c/icons", "icon.x");
    assert_eq!(targets.len(), 7);
    let result = icon_result("icon.x", &targets);
    assert_eq!(result.rendered_paths.len(), 7);
    assert_eq!(result.rendered_paths[0], "/c/icons/icon.x-16x16.png");
}

#[test]
fn fetch_stops_at_first_success() {
    let mut fetch = IconFetch::new(vec!["a".to_string(), "b".to_string()]);
    fetch.record_attempt(false);
    match fetch.next_step() {
        IconStep::Download(u) => assert_eq!(u, "b"),
        _ => panic!("the second candidate is next"),
    }
    fetch.record_attempt(true);
    assert!(matches!(fetch.next_step(), IconStep::Finished));
}

#[test]
fn ladder_has_seven_sizes() {
    let targets = ladder_targets("/c/icons/", "id");
    let sizes: Vec<u32> = targets.iter().map(|t| t.size).collect();
    assert_eq!(sizes, vec![16, 32, 48, 64, 128, 256, 512]);
    assert_eq!(targets[4].path, "/c/icons/id-128x128.png");
    assert_eq!(targets[6].path, "/c/icons/id-512x512.png");
    assert_eq!(icon_size(3), 64);
    assert_eq!(cache_dir_from_base("/c"), "/c/icons");
}

#[test]
fn size_limits_and_frame_choice() {
    assert!(content_length_acceptable(None));
    assert!(content_length_acceptable(Some(5 * 1024 * 1024)));
    assert!(!content_length_acceptable(Some(5 * 1024 * 1024 + 1)));
    assert!(body_size_acceptable(5 * 1024 * 1024));
    assert!(!body_size_acceptable(5 * 1024 * 1024 + 1));
    assert_eq!(widest_frame(&vec![]), None);
    assert_eq!(widest_frame(&vec![16, 48, 32, 48]), Some(3));
    assert_eq!(widest_frame(&vec![256, 16]), Some(0));
}
