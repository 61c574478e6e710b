//! What is handed to the host's launcher, notification and file-chooser portals.

use vstd::prelude::*;

use crate::model::WebAppDefinition;
use crate::paths::AppPaths;
use crate::text::{join, join_path};
use vstd::utf8::encode_utf8;

verus! {

/// What the host's dynamic-launcher capability needs to register a desktop launcher.
#[derive(Clone, Debug)]
pub struct LauncherDescriptor {
    /// Desktop file id used by the portal: `<icon_id>.desktop`.
    pub desktop_id: String,
    pub name: String,
    /// The command line that the launcher runs.
    pub command: String,
    pub icon_name: String,
    pub icon_file: Option<String>,
}

/// A toast for the host's notification centre.
#[derive(Clone, Debug)]
pub struct NotificationRequest {
    pub app_id: String,
    pub title: String,
    pub body: String,
    pub icon: Option<String>,
}

/// A save dialog, and the bytes to write where the user chooses.
#[derive(Clone, Debug)]
pub struct SaveFileRequest {
    pub title: String,
    pub suggested_name: String,
    pub default_directory: Option<String>,
    pub content: Vec<u8>,
}

/// Failure of a host capability.
#[derive(Clone, Debug)]
pub enum PortalError {
    /// The capability is absent on this host.
    Unavailable,
    /// The host answered with an error.
    Other(String),
}

impl PortalError {
    /// The text of the failure, for dialogs and logs.
    pub fn message(&self) -> (r: String)
        ensures
            self is Unavailable ==> r@ == "required portal backend unavailable"@,
            self matches PortalError::Other(m) ==> r@ == m@,
    {
        match self {
            PortalError::Unavailable => String::from_str("required portal backend unavailable"),
            PortalError::Other(m) => m.clone(),
        }
    }
}

/// The desktop entry text for a launcher with the given name, command and icon.
pub open spec fn desktop_entry_view(name: Seq<char>, exec: Seq<char>, icon: Seq<char>) -> Seq<char> {
    "[Desktop Entry]\nName="@ + name + "\nExec="@ + exec + "\nType=Application\nIcon="@ + icon
        + "\nCategories=Network;WebBrowser;\n"@
}

/// The desktop entry that registers `descriptor`.
pub fn desktop_entry_from_descriptor(descriptor: &LauncherDescriptor) -> (r: String)
    ensures
        r@ == desktop_entry_view(descriptor.name@, descriptor.command@, descriptor.icon_name@),
{
    String::from_str("[Desktop Entry]\nName=").concat(descriptor.name.as_str()).concat(
        "\nExec=",
    ).concat(descriptor.command.as_str()).concat("\nType=Application\nIcon=").concat(
        descriptor.icon_name.as_str(),
    ).concat("\nCategories=Network;WebBrowser;\n")
}

/// The command line that opens an entity's shell window.
pub open spec fn shell_command_view(app: WebAppDefinition) -> Seq<char> {
    "sitewrap --shell "@ + app.id.text_view()
}

/// The launcher icon: the 128-pixel rendering in the icon cache.
pub open spec fn launcher_icon_view(app: WebAppDefinition, paths: AppPaths) -> Seq<char> {
    join_path(paths.icons_cache_dir_view(), app.icon_id@ + "-128x128.png"@)
}

pub fn desktop_id_for(app: &WebAppDefinition) -> (r: String)
    ensures
        r@ == app.icon_id@ + ".desktop"@,
{
    app.icon_id.clone().concat(".desktop")
}

/// The file that a launcher for `app` shows as its icon, where it exists.
pub fn launcher_icon_path(app: &WebAppDefinition, paths: &AppPaths) -> (r: String)
    ensures
        r@ == launcher_icon_view(*app, *paths),
{
    let name = app.icon_id.clone().concat("-128x128.png");
    join(paths.icons_cache_dir().as_str(), name.as_str())
}

/// The launcher for `app`; `icon_exists` says whether its 128-pixel icon is on disk.
pub fn launcher_descriptor_for(app: &WebAppDefinition, paths: &AppPaths, icon_exists: bool) -> (r:
    LauncherDescriptor)
    ensures
        r.desktop_id@ == app.icon_id@ + ".desktop"@,
        r.name@ == app.name@,
        r.command@ == shell_command_view(*app),
        r.icon_name@ == app.icon_id@,
        icon_exists ==> (r.icon_file matches Some(f) && f@ == launcher_icon_view(*app, *paths)),
        !icon_exists ==> r.icon_file is None,
{
    let icon_file = if icon_exists {
        Some(launcher_icon_path(app, paths))
    } else {
        None
    };
    LauncherDescriptor {
        desktop_id: desktop_id_for(app),
        name: app.name.clone(),
        command: String::from_str("sitewrap --shell ").concat(app.id.text().as_str()),
        icon_name: app.icon_id.clone(),
        icon_file,
    }
}

/// The sample notification that a shell window sends for `origin`.
pub fn sample_notification(app: &WebAppDefinition, origin: &str) -> (r: NotificationRequest)
    ensures
        r.app_id@ == app.icon_id@,
        r.title@ == app.name@ + " says hi"@,
        r.body@ == "Sample notification for "@ + origin@,
        (r.icon matches Some(i) && i@ == app.icon_id@),
{
    NotificationRequest {
        app_id: app.icon_id.clone(),
        title: app.name.clone().concat(" says hi"),
        body: String::from_str("Sample notification for ").concat(origin),
        icon: Some(app.icon_id.clone()),
    }
}

/// `s` with every space replaced by an underscore.
pub open spec fn underscored(s: Seq<char>) -> Seq<char> {
    s.map_values(|c: char| if c == ' ' { '_' } else { c })
}

/// Relies on `str::replace` with the pattern `' '` and replacement `"_"`: each space
/// becomes an underscore, every other character is kept.
#[verifier::external_body]
fn spaces_to_underscores(s: &str) -> (r: String)
    ensures
        r@ == underscored(s@),
{
    s.replace(' ', "_")
}

/// The text of the placeholder page export of a shell window showing `current_url`.
pub open spec fn page_export_text(app: WebAppDefinition, current_url: Seq<char>) -> Seq<char> {
    "Dummy export for "@ + app.name@ + "\nURL: "@ + current_url + "\n"@
}

/// The save request for the placeholder page export of a shell window.
pub fn page_export_request(app: &WebAppDefinition, current_url: &str) -> (r: SaveFileRequest)
    ensures
        r.title@ == "Save page - "@ + app.name@,
        r.suggested_name@ == underscored(app.name@) + "-page.txt"@,
        r.default_directory is None,
        r.content@ == encode_utf8(page_export_text(*app, current_url@)),
{
    let text = String::from_str("Dummy export for ").concat(app.name.as_str()).concat("\nURL: ").concat(
        current_url,
    ).concat("\n");
    SaveFileRequest {
        title: String::from_str("Save page - ").concat(app.name.as_str()),
        suggested_name: spaces_to_underscores(app.name.as_str()).concat("-page.txt"),
        default_directory: None,
        content: text.as_str().as_bytes_vec(),
    }
}

} // verus!
