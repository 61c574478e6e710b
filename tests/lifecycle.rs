use sitewrap::catalog::{list_order, matches_query, sorted_origins};
use sitewrap::cleanup::{finish_remove, remove_plan, reset_plan, Removal};
use sitewrap::engine::{describe_mode, detect_mode, EngineConfig, EngineMode};
use sitewrap::ids::WebAppId;
use sitewrap::lifecycle::{
    apply_edit, choose_mode, create_web_app, is_external, notification_action, open_for_editing,
    prepare_create, prompt_decision, set_permission, AppMode, InputError, NavigationAction,
    NotificationAction, ShellNavigation,
};
use sitewrap::model::{PermissionField, PermissionState, UtcInstant, WebAppDefinition};
use sitewrap::paths::{collect_loaded, is_record_file, AppPaths, AppRegistry, PermissionRepository};
use sitewrap::permissions::PermissionStore;
use sitewrap::portal::PortalError;

const ID: &str = "00000000-0000-0000-0000-0000000000ab";

fn make(url: &str, name: &str) -> WebAppDefinition {
    prepare_create(
        url,
        name,
        true,
        false,
        WebAppId::from_u128(0xab),
        UtcInstant { unix_seconds: 1_700_000_000, nanosecond: 5 },
    )
    .unwrap()
}

#[test]
fn create_with_bare_host_and_empty_name() {
    let app = create_web_app("example.com", "", true, false).unwrap();
    assert_eq!(app.start_url, "https://example.com/");
    assert_eq!(app.primary_origin, "https://example.com");
    assert_eq!(app.name, "example.com");
    assert!(app.behavior.open_external_links);
    assert!(!app.behavior.show_navigation);
    let paths = AppPaths::for_test("/tmp/sw");
    let registry = AppRegistry::new(paths);
    assert_eq!(
        registry.app_path(app.id),
        format!("/tmp/sw/config/apps/{}.toml", app.id.text())
    );
}

#[test]
fn create_rejects_empty_and_invalid_urls() {
    assert_eq!(create_web_app("   ", "x", true, false).unwrap_err(), InputError::EmptyUrl);
    assert_eq!(create_web_app("http://", "x", true, false).unwrap_err(), InputError::InvalidUrl);
}

#[test]
fn create_keeps_identity_flags_and_trimmed_name() {
    let app = prepare_create(
        "https://a.test/",
        "  My App ",
        false,
        true,
        WebAppId::from_u128(7),
        UtcInstant { unix_seconds: 42, nanosecond: 0 },
    )
    .unwrap();
    assert_eq!(app.name, "My App");
    assert_eq!(app.id, WebAppId::from_u128(7));
    assert_eq!(app.created_at.unix_seconds, 42);
    assert!(!app.behavior.open_external_links);
    assert!(app.behavior.show_navigation);
}

#[test]
fn edit_start_url_changes_origin_and_schedules_refetch() {
    let mut app = make("https://a.test/", "A");
    let before_id = app.id;
    let follow = apply_edit(&mut app, "https://b.test/", "A", true, false).unwrap();
    assert_eq!(app.primary_origin, "https://b.test");
    assert_eq!(app.start_url, "https://b.test/");
    assert_eq!(app.id, before_id);
    assert!(follow.url_changed);
    assert!(follow.refetch_icon);
    assert!(follow.reinstall_launcher);

    let follow = apply_edit(&mut app, "https://b.test/", "", false, true).unwrap();
    assert!(!follow.url_changed);
    assert!(!follow.refetch_icon);
    assert!(follow.reinstall_launcher);
    assert_eq!(app.name, "b.test");
    assert!(app.behavior.show_navigation);
}

#[test]
fn rejected_edit_leaves_app_unchanged() {
    let mut app = make("https://a.test/", "A");
    assert_eq!(apply_edit(&mut app, "", "B", false, true), Err(InputError::EmptyUrl));
    assert_eq!(app.name, "A");
    assert_eq!(app.start_url, "https://a.test/");
    assert!(app.behavior.open_external_links);
}

#[test]
fn reset_then_edit_permissions_materializes_primary_origin() {
    let app = make("https://example.com/", "Example");
    let paths = AppPaths::for_test("/tmp/sw");
    let plan = reset_plan(&paths, &app);
    let repo = PermissionRepository::new(paths.clone());
    match &plan[0] {
        Removal::File(f) => assert_eq!(*f, repo.permission_path(app.id)),
        _ => panic!("first reset step deletes the permission file"),
    }
    // After reset the file is absent: the window starts from an empty store.
    let mut store = PermissionStore::default();
    open_for_editing(&mut store, &app.primary_origin);
    assert_eq!(store.len(), 1);
    let p = store.get("https://example.com").unwrap();
    assert_eq!(p.notifications, PermissionState::Ask);
    assert_eq!(p.camera, PermissionState::Ask);
    assert_eq!(p.microphone, PermissionState::Ask);
    assert_eq!(p.location, PermissionState::Ask);
}

#[test]
fn reset_plan_covers_profile_and_icons_but_not_record() {
    let app = make("https://example.com/", "Example");
    let paths = AppPaths::for_test("/r");
    let plan = reset_plan(&paths, &app);
    assert_eq!(plan.len(), 3);
    match &plan[1] {
        Removal::Tree(d) => assert_eq!(*d, format!("/r/data/profiles/{ID}")),
        _ => panic!("second reset step deletes the profile directory"),
    }
    match &plan[2] {
        Removal::Prefixed(dir, prefix) => {
            assert_eq!(*dir, "/r/cache/icons");
            assert_eq!(*prefix, app.icon_id);
        }
        _ => panic!("third reset step deletes the cached icons"),
    }
    let record = format!("/r/config/apps/{ID}.toml");
    for step in plan.iter() {
        match step {
            Removal::File(f) => assert_ne!(*f, record),
            Removal::Tree(d) => assert!(!record.starts_with(d.as_str())),
            Removal::Prefixed(dir, _) => assert!(!record.starts_with(dir.as_str())),
        }
    }
}

#[test]
fn remove_plan_adds_record_and_launcher() {
    let app = make("https://example.com/", "Example");
    let paths = AppPaths::for_test("/r");
    let plan = remove_plan(&paths, &app);
    assert_eq!(plan.removals.len(), 4);
    match &plan.removals[3] {
        Removal::File(f) => assert_eq!(*f, format!("/r/config/apps/{ID}.toml")),
        _ => panic!("last remove step deletes the record"),
    }
    assert_eq!(plan.launcher_desktop_id, format!("{}.desktop", app.icon_id));
}

#[test]
fn launcher_remove_failure_is_only_a_warning() {
    let report = finish_remove(&Err(PortalError::Unavailable));
    assert!(report.launcher_warning);
    assert!(!finish_remove(&Ok(())).launcher_warning);
}

#[test]
fn external_navigation_is_delegated() {
    let app = make("https://example.com/", "Example");
    let mut nav = ShellNavigation::new(&app);
    let action = nav.handle_navigation_request(&app, "https://other.example/");
    match action {
        NavigationAction::OpenExternally(t) => assert_eq!(t, "https://other.example/"),
        _ => panic!("other origins open externally"),
    }
    assert_eq!(nav.current_url, "https://example.com/");

    let action = nav.handle_navigation_request(&app, "https://example.com/page");
    match action {
        NavigationAction::LoadInPlace(t) => assert_eq!(t, "https://example.com/page"),
        _ => panic!("same origin stays in the window"),
    }
    assert_eq!(nav.current_url, "https://example.com/page");
    nav.restart(&app);
    assert_eq!(nav.current_url, "https://example.com/");
}

#[test]
fn navigation_policy_cases() {
    let mut app = make("https://example.com/", "Example");
    assert!(!is_external(&app, "https://example.com/other"));
    assert!(!is_external(&app, "https://EXAMPLE.com:443/x"));
    assert!(is_external(&app, "http://example.com/"));
    assert!(is_external(&app, "https://example.com:8443/"));
    assert!(!is_external(&app, "not a url"));
    app.behavior.open_external_links = false;
    assert!(!is_external(&app, "https://other.example/"));
}

#[test]
fn list_skips_records_that_failed_to_load() {
    let a = make("https://a.test/", "A");
    let b = make("https://b.test/", "B");
    let listed = collect_loaded(vec![Some(a), None, Some(b)]);
    assert_eq!(listed.len(), 2);
    assert_eq!(listed[0].name, "A");
    assert_eq!(listed[1].name, "B");
    assert!(is_record_file("x.toml"));
    assert!(!is_record_file(".toml"));
    assert!(!is_record_file("x.toml.bak"));
}

#[test]
fn permission_origins_sorted_for_display() {
    let mut store = PermissionStore::default();
    set_permission(&mut store, "https://zeta.test", PermissionField::Camera, PermissionState::Block);
    set_permission(&mut store, "https://alpha.test", PermissionField::Notifications, PermissionState::Allow);
    set_permission(&mut store, "http://mid.test", PermissionField::Location, PermissionState::Allow);
    assert_eq!(
        sorted_origins(&store),
        vec!["http://mid.test", "https://alpha.test", "https://zeta.test"]
    );
    assert_eq!(store.get("https://zeta.test").unwrap().camera, PermissionState::Block);
}

#[test]
fn manager_list_sorts_and_filters() {
    let apps = vec![
        make("https://z.test/", "beta"),
        make("https://y.test/", "Alpha"),
        make("https://x.test/", "alpha"),
        make("https://w.test/", "Gamma"),
    ];
    assert_eq!(list_order(&apps, ""), vec![1, 2, 0, 3]);
    assert_eq!(list_order(&apps, "  ALPHA "), vec![1, 2]);
    assert_eq!(list_order(&apps, "w.test"), vec![3]);
    assert_eq!(list_order(&apps, "extern").len(), 4);
    assert!(list_order(&apps, "navigation").is_empty());
    assert!(matches_query(&apps[0], "z.test"));
    assert!(!matches_query(&apps[0], "nothing"));
}

#[test]
fn engine_mode_detection() {
    assert_eq!(detect_mode(false, true), EngineMode::Stub);
    assert_eq!(detect_mode(true, false), EngineMode::EngineMissing);
    assert_eq!(detect_mode(true, true), EngineMode::EngineReady);
    assert_eq!(describe_mode(EngineMode::EngineMissing), "cef-missing");
    let config = EngineConfig::new("/p".to_string(), Some("/cef".to_string()));
    assert_eq!(config.mode(true), EngineMode::EngineReady);
    assert_eq!(EngineConfig::new("/p".to_string(), None).mode(true), EngineMode::Stub);
}

#[test]
fn notification_decisions_and_mode() {
    assert_eq!(notification_action(PermissionState::Allow), NotificationAction::Send);
    assert_eq!(notification_action(PermissionState::Block), NotificationAction::ReportBlocked);
    assert_eq!(notification_action(PermissionState::Ask), NotificationAction::Prompt);
    assert_eq!(prompt_decision(false), PermissionState::Block);
    let id = WebAppId::from_u128(9);
    assert_eq!(choose_mode(true, Some(id)), AppMode::Manager);
    assert_eq!(choose_mode(false, Some(id)), AppMode::Shell(id));
    assert_eq!(choose_mode(false, None), AppMode::Manager);
}

#[test]
fn error_messages() {
    assert_eq!(InputError::EmptyUrl.message(), "Please enter a URL");
    assert_eq!(InputError::InvalidUrl.message(), "invalid URL");
    assert_eq!(PortalError::Unavailable.message(), "required portal backend unavailable");
    assert_eq!(PortalError::Other("denied".to_string()).message(), "denied");
    assert_eq!(
        sitewrap::icons::IconError::Download("icon too large".to_string()).message(),
        "download failed: icon too large"
    );
    assert!(sitewrap::cleanup::has_name_prefix("id-16x16.png", "id"));
    assert!(!sitewrap::cleanup::has_name_prefix("i", "id"));
}

#[test]
fn one_submission_in_flight() {
    let mut guard = sitewrap::lifecycle::SubmissionGuard::new();
    assert!(guard.try_begin());
    assert!(!guard.try_begin());
    guard.release();
    assert!(guard.try_begin());
}
