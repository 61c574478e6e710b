//! Create and edit submissions, navigation policy and shell decisions.

use vstd::prelude::*;

use crate::ids::WebAppId;
use crate::model::{
    all_ask, with_field, BehaviorConfig, PermissionField, PermissionState, UtcInstant, WebAppDefinition,
};
use crate::permissions::PermissionStore;
use crate::text::{trim, trimmed};
use crate::weburl::{normalize_url, normalized_source, url_host, url_href, url_origin, url_parses, ParsedUrl};

verus! {

/// Why a create or edit submission was rejected.
#[derive(Clone, Copy, Debug, PartialEq, Eq, Structural)]
pub enum InputError {
    /// The URL field is empty.
    EmptyUrl,
    /// The URL does not parse.
    InvalidUrl,
}

impl InputError {
    /// The text shown next to the URL field.
    pub fn message(&self) -> (r: &'static str)
        ensures
            *self == InputError::EmptyUrl ==> r@ == "Please enter a URL"@,
            *self == InputError::InvalidUrl ==> r@ == "invalid URL"@,
    {
        match self {
            InputError::EmptyUrl => "Please enter a URL",
            InputError::InvalidUrl => "invalid URL",
        }
    }
}

/// A navigation target leaves the app: external links are delegated to the host and the
/// target parses to an origin other than the app's primary origin.
pub open spec fn external_target(app: WebAppDefinition, target: Seq<char>) -> bool {
    &&& app.behavior.open_external_links
    &&& url_parses(target)
    &&& url_origin(target) != app.primary_origin@
}

/// Whether a navigation to `target` is handed to the host's browser instead of staying
/// in the app's window.
pub fn is_external(app: &WebAppDefinition, target: &str) -> (r: bool)
    ensures
        r == external_target(*app, target@),
{
    if !app.behavior.open_external_links {
        return false;
    }
    match ParsedUrl::parse(target) {
        Some(u) => !(u.origin == app.primary_origin),
        None => false,
    }
}

/// Same-origin targets stay in the window; other origins leave it exactly when external
/// links are delegated; nothing leaves while delegation is off.
pub proof fn lemma_navigation_policy(app: WebAppDefinition, target: Seq<char>)
    ensures
        url_parses(target) && url_origin(target) == app.primary_origin@ ==> !external_target(app, target),
        app.behavior.open_external_links && url_parses(target) && url_origin(target) != app.primary_origin@
            ==> external_target(app, target),
        !app.behavior.open_external_links ==> !external_target(app, target),
{
}

/// What a shell window does with a navigation request.
#[derive(Clone, Debug)]
pub enum NavigationAction {
    /// Hand the target to the host's default handler and say so.
    OpenExternally(String),
    /// Load the target in the window.
    LoadInPlace(String),
}

/// The current-URL register of a shell window.
#[derive(Clone, Debug)]
pub struct ShellNavigation {
    pub current_url: String,
}

impl ShellNavigation {
    /// A window that shows the app's start URL.
    pub fn new(app: &WebAppDefinition) -> (r: ShellNavigation)
        ensures
            r.current_url@ == app.start_url@,
    {
        ShellNavigation { current_url: app.start_url.clone() }
    }

    /// Decides a navigation request: an external target leaves the register as it is;
    /// any other target becomes the current URL.
    pub fn handle_navigation_request(&mut self, app: &WebAppDefinition, target: &str) -> (r:
        NavigationAction)
        ensures
            external_target(*app, target@) ==> (r matches NavigationAction::OpenExternally(t) && t@
                == target@) && final(self).current_url@ == old(self).current_url@,
            !external_target(*app, target@) ==> (r matches NavigationAction::LoadInPlace(t) && t@
                == target@) && final(self).current_url@ == target@,
    {
        if is_external(app, target) {
            NavigationAction::OpenExternally(String::from_str(target))
        } else {
            self.current_url = String::from_str(target);
            NavigationAction::LoadInPlace(String::from_str(target))
        }
    }

    /// Back to the start URL, as after the app's data was cleared.
    pub fn restart(&mut self, app: &WebAppDefinition)
        ensures
            final(self).current_url@ == app.start_url@,
    {
        self.current_url = app.start_url.clone();
    }
}

/// The name a submission gives an app: the trimmed name field, or where that is empty the
/// URL's host, or `Web App` for a URL without one.
pub open spec fn chosen_name(name_input: Seq<char>, host: Option<Seq<char>>) -> Seq<char> {
    let n = trimmed(name_input);
    if n.len() > 0 {
        n
    } else {
        match host {
            Some(h) => h,
            None => "Web App"@,
        }
    }
}

fn choose_name(name_input: &str, url: &ParsedUrl) -> (r: String)
    ensures
        r@ == chosen_name(name_input@, crate::weburl::opt_view(url.host)),
{
    let n = trim(name_input);
    if n.as_str().unicode_len() > 0 {
        n
    } else {
        match &url.host {
            Some(h) => h.clone(),
            None => String::from_str("Web App"),
        }
    }
}

/// The outcome of a submission's URL field: `EmptyUrl` when it is blank, `InvalidUrl` when
/// it does not normalize, else the parsed URL.
pub open spec fn submitted_url_error(url_input: Seq<char>) -> Option<InputError> {
    if trimmed(url_input).len() == 0 {
        Some(InputError::EmptyUrl)
    } else if !url_parses(normalized_source(url_input)) {
        Some(InputError::InvalidUrl)
    } else {
        None
    }
}

fn submitted_url(url_input: &str) -> (r: Result<ParsedUrl, InputError>)
    ensures
        r is Err <==> submitted_url_error(url_input@) is Some,
        r matches Err(e) ==> submitted_url_error(url_input@) == Some(e),
        r matches Ok(u) ==> u.is_parse_of(normalized_source(url_input@)),
{
    if trim(url_input).as_str().unicode_len() == 0 {
        return Err(InputError::EmptyUrl);
    }
    match normalize_url(url_input) {
        Some(u) => Ok(u),
        None => Err(InputError::InvalidUrl),
    }
}

/// `app` is what a create submission with these fields yields, up to identity and time.
pub open spec fn created_from(
    app: WebAppDefinition,
    url_input: Seq<char>,
    name_input: Seq<char>,
    open_external_links: bool,
    show_navigation: bool,
) -> bool {
    let src = normalized_source(url_input);
    &&& app.wf()
    &&& app.name@ == chosen_name(name_input, url_host(src))
    &&& app.start_url@ == url_href(src)
    &&& app.primary_origin@ == url_origin(src)
    &&& app.last_launched_at is None
    &&& app.behavior == BehaviorConfig { open_external_links, show_navigation }
}

/// Builds the definition that a create submission describes, with the given identity
/// and creation time.
pub fn prepare_create(
    url_input: &str,
    name_input: &str,
    open_external_links: bool,
    show_navigation: bool,
    id: WebAppId,
    created_at: UtcInstant,
) -> (r: Result<WebAppDefinition, InputError>)
    ensures
        r is Err <==> submitted_url_error(url_input@) is Some,
        r matches Err(e) ==> submitted_url_error(url_input@) == Some(e),
        r matches Ok(app) ==> created_from(app, url_input@, name_input@, open_external_links, show_navigation)
            && app.id == id && app.created_at == created_at,
{
    let url = match submitted_url(url_input) {
        Ok(u) => u,
        Err(e) => return Err(e),
    };
    let name = choose_name(name_input, &url);
    let mut app = WebAppDefinition::from_parts(id, name, &url, created_at);
    app.behavior = BehaviorConfig { open_external_links, show_navigation };
    Ok(app)
}

/// Builds the definition that a create submission describes, with a fresh identifier,
/// created now.
pub fn create_web_app(url_input: &str, name_input: &str, open_external_links: bool, show_navigation: bool) -> (r:
    Result<WebAppDefinition, InputError>)
    ensures
        r is Err <==> submitted_url_error(url_input@) is Some,
        r matches Err(e) ==> submitted_url_error(url_input@) == Some(e),
        r matches Ok(app) ==> created_from(app, url_input@, name_input@, open_external_links, show_navigation)
            && app.created_at.wf(),
{
    let id = WebAppId::new_v4();
    let now = UtcInstant::now();
    prepare_create(url_input, name_input, open_external_links, show_navigation, id, now)
}

/// The primary origin that a created app records is the origin of the normalized URL.
pub proof fn lemma_origin_identity(
    app: WebAppDefinition,
    url: ParsedUrl,
    url_input: Seq<char>,
    name_input: Seq<char>,
    open_external_links: bool,
    show_navigation: bool,
)
    requires
        url.is_parse_of(normalized_source(url_input)),
        created_from(app, url_input, name_input, open_external_links, show_navigation),
    ensures
        app.primary_origin@ == url.origin@,
        app.start_url@ == url.href@,
{
}

/// Work to run in the background after an edit was saved.
#[derive(Clone, Copy, Debug, PartialEq, Eq, Structural)]
pub struct EditFollowUp {
    /// The start URL changed.
    pub url_changed: bool,
    /// The icon is to be fetched again.
    pub refetch_icon: bool,
    /// The launcher is to be installed again with the new metadata.
    pub reinstall_launcher: bool,
}

/// Applies an edit submission to `app`. On rejection `app` is left unchanged; on success
/// its name, URL, origin and behaviour follow the fields and its identity, icon
/// identifier and times are kept.
pub fn apply_edit(
    app: &mut WebAppDefinition,
    url_input: &str,
    name_input: &str,
    open_external_links: bool,
    show_navigation: bool,
) -> (r: Result<EditFollowUp, InputError>)
    ensures
        r is Err <==> submitted_url_error(url_input@) is Some,
        r matches Err(e) ==> submitted_url_error(url_input@) == Some(e) && *final(app) == *old(app),
        r matches Ok(f) ==> {
            let src = normalized_source(url_input@);
            &&& final(app).name@ == chosen_name(name_input@, url_host(src))
            &&& final(app).start_url@ == url_href(src)
            &&& final(app).primary_origin@ == url_origin(src)
            &&& final(app).behavior == BehaviorConfig { open_external_links, show_navigation }
            &&& final(app).id == old(app).id
            &&& final(app).icon_id == old(app).icon_id
            &&& final(app).created_at == old(app).created_at
            &&& final(app).last_launched_at == old(app).last_launched_at
            &&& f.url_changed == (old(app).start_url@ != url_href(src))
            &&& f.refetch_icon == f.url_changed
            &&& f.reinstall_launcher
        },
{
    let url = match submitted_url(url_input) {
        Ok(u) => u,
        Err(e) => return Err(e),
    };
    let name = choose_name(name_input, &url);
    let url_changed = !(app.start_url == url.href);
    app.name = name;
    app.start_url = url.href.clone();
    app.primary_origin = url.origin.clone();
    app.behavior = BehaviorConfig { open_external_links, show_navigation };
    Ok(EditFollowUp { url_changed, refetch_icon: url_changed, reinstall_launcher: true })
}

} // verus!

verus! {

/// What a shell window does when a page asks to notify.
#[derive(Clone, Copy, Debug, PartialEq, Eq, Structural)]
pub enum NotificationAction {
    /// Send the notification.
    Send,
    /// Tell the user notifications are blocked.
    ReportBlocked,
    /// Ask the user, then store the answer.
    Prompt,
}

/// The action for a stored notification decision.
pub fn notification_action(state: PermissionState) -> (r: NotificationAction)
    ensures
        state == PermissionState::Allow ==> r == NotificationAction::Send,
        state == PermissionState::Block ==> r == NotificationAction::ReportBlocked,
        state == PermissionState::Ask ==> r == NotificationAction::Prompt,
{
    match state {
        PermissionState::Allow => NotificationAction::Send,
        PermissionState::Block => NotificationAction::ReportBlocked,
        PermissionState::Ask => NotificationAction::Prompt,
    }
}

/// The decision stored from the notification prompt: Allow for the `allow` answer,
/// Block for any other.
pub fn prompt_decision(allowed: bool) -> (r: PermissionState)
    ensures
        r == (if allowed { PermissionState::Allow } else { PermissionState::Block }),
{
    if allowed {
        PermissionState::Allow
    } else {
        PermissionState::Block
    }
}

/// Prepares a store for the permissions window: the primary origin is present, with
/// every capability set to Ask where it had no decisions.
pub fn open_for_editing(store: &mut PermissionStore, primary_origin: &str)
    requires
        old(store).wf(),
    ensures
        final(store).wf(),
        final(store).view() == old(store).view().insert(
            primary_origin@,
            if old(store).view().contains_key(primary_origin@) {
                old(store).view()[primary_origin@]
            } else {
                all_ask()
            },
        ),
{
    let _ = store.get_or_default_mut(primary_origin);
}

/// Stores a decision from the permissions window.
pub fn set_permission(store: &mut PermissionStore, origin: &str, field: PermissionField, state: PermissionState)
    requires
        old(store).wf(),
    ensures
        final(store).wf(),
        final(store).view() == old(store).view().insert(
            origin@,
            with_field(
                if old(store).view().contains_key(origin@) {
                    old(store).view()[origin@]
                } else {
                    all_ask()
                },
                field,
                state,
            ),
        ),
{
    let entry = store.get_or_default_mut(origin);
    entry.set(field, state);
}

/// How the program runs.
#[derive(Clone, Copy, Debug, PartialEq, Eq, Structural)]
pub enum AppMode {
    /// The manager window.
    Manager,
    /// The shell window of one web app.
    Shell(WebAppId),
}

/// The mode for the command-line flags: `--manager` wins, then `--shell <id>`, and the
/// manager is the default.
pub fn choose_mode(manager: bool, shell: Option<WebAppId>) -> (r: AppMode)
    ensures
        manager ==> r == AppMode::Manager,
        !manager && shell is Some ==> r == AppMode::Shell(shell->Some_0),
        !manager && shell is None ==> r == AppMode::Manager,
{
    if manager {
        AppMode::Manager
    } else {
        match shell {
            Some(id) => AppMode::Shell(id),
            None => AppMode::Manager,
        }
    }
}

} // verus!

verus! {

/// Lets one create submission at a time through a dialog.
#[derive(Clone, Copy, Debug, PartialEq, Eq, Structural)]
pub struct SubmissionGuard {
    pub in_flight: bool,
}

impl SubmissionGuard {
    pub fn new() -> (r: SubmissionGuard)
        ensures
            !r.in_flight,
    {
        SubmissionGuard { in_flight: false }
    }

    /// Starts a submission unless one is in flight; says whether it started.
    pub fn try_begin(&mut self) -> (r: bool)
        ensures
            r == !old(self).in_flight,
            final(self).in_flight,
    {
        if self.in_flight {
            false
        } else {
            self.in_flight = true;
            true
        }
    }

    /// Ends the submission in flight after it was rejected, so the user can try again.
    pub fn release(&mut self)
        ensures
            !final(self).in_flight,
    {
        self.in_flight = false;
    }
}

} // verus!
