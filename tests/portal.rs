use sitewrap::ids::WebAppId;
use sitewrap::model::UtcInstant;
use sitewrap::paths::AppPaths;
use sitewrap::portal::{
    desktop_entry_from_descriptor, launcher_descriptor_for, page_export_request,
    sample_notification, LauncherDescriptor,
};
use sitewrap::lifecycle::prepare_create;

#[test]
fn desktop_entry_matches_descriptor() {
    let descriptor = LauncherDescriptor {
        desktop_id: "xyz.andriishafar.Sitewrap.webapp.123.desktop".into(),
        name: "Demo App".into(),
        command: "sitewrap --shell 123".into(),
        icon_name: "xyz.andriishafar.Sitewrap.webapp.123".into(),
        icon_file: None,
    };

    let entry = desktop_entry_from_descriptor(&descriptor);
    let expected = "[Desktop Entry]\nName=Demo App\nExec=sitewrap --shell 123\nType=Application\nIcon=xyz.andriishafar.Sitewrap.webapp.123\nCategories=Network;WebBrowser;\n";
    assert_eq!(entry, expected);
}

#[test]
fn desktop_id_roundtrip() {
    let desc = LauncherDescriptor {
        desktop_id: "xyz.andriishafar.Sitewrap.webapp.123.desktop".into(),
        name: "Test".into(),
        command: "sitewrap --shell 123".into(),
        icon_name: "xyz.andriishafar.Sitewrap.webapp.123".into(),
        icon_file: Some("/tmp/icon.png".to_string()),
    };
    assert!(desc.desktop_id.ends_with(".desktop"));
    assert!(desc.icon_name.starts_with("xyz.andriishafar.Sitewrap"));
    assert!(desc.icon_file.is_some());
}

fn sample_app() -> sitewrap::model::WebAppDefinition {
    prepare_create(
        "example.com",
        "Demo App",
        true,
        false,
        WebAppId::from_u128(0x123),
        UtcInstant { unix_seconds: 0, nanosecond: 0 },
    )
    .unwrap()
}

#[test]
fn launcher_descriptor_follows_conventions() {
    let app = sample_app();
    let paths = AppPaths::for_test("/r");
    let d = launcher_descriptor_for(&app, &paths, true);
    let id = "00000000-0000-0000-0000-000000000123";
    assert_eq!(d.desktop_id, format!("xyz.andriishafar.Sitewrap.webapp.{id}.desktop"));
    assert_eq!(d.name, "Demo App");
    assert_eq!(d.command, format!("sitewrap --shell {id}"));
    assert_eq!(d.icon_name, format!("xyz.andriishafar.Sitewrap.webapp.{id}"));
    assert_eq!(
        d.icon_file,
        Some(format!("/r/cache/icons/xyz.andriishafar.Sitewrap.webapp.{id}-128x128.png"))
    );
    assert!(launcher_descriptor_for(&app, &paths, false).icon_file.is_none());
}

#[test]
fn notification_and_export_requests() {
    let app = sample_app();
    let n = sample_notification(&app, "https://example.com");
    assert_eq!(n.title, "Demo App says hi");
    assert_eq!(n.body, "Sample notification for https://example.com");
    assert_eq!(n.icon, Some(app.icon_id.clone()));
    let s = page_export_request(&app, "https://example.com/x");
    assert_eq!(s.title, "Save page - Demo App");
    assert_eq!(s.suggested_name, "Demo_App-page.txt");
    assert_eq!(s.content, b"Dummy export for Demo App\nURL: https://example.com/x\n".to_vec());
}
