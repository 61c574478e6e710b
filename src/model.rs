//! Web app definitions, behaviour flags and permission decisions.

use vstd::prelude::*;

use crate::ids::WebAppId;
use crate::weburl::ParsedUrl;

verus! {

/// Prefix of every icon identifier; the identifier's text follows it.
pub const ICON_ID_PREFIX: &'static str = "xyz.andriishafar.Sitewrap.webapp.";

/// The icon identifier that belongs to a web app identifier.
pub open spec fn icon_id_view(id: WebAppId) -> Seq<char> {
    ICON_ID_PREFIX@ + id.text_view()
}

/// Derives the stable icon identifier (used for icon file names and the launcher icon)
/// from a web app identifier.
pub fn icon_id_for(id: WebAppId) -> (r: String)
    ensures
        r@ == icon_id_view(id),
{
    String::from_str(ICON_ID_PREFIX).concat(id.text().as_str())
}

/// An instant in UTC, as seconds since the Unix epoch and nanoseconds within the second.
#[derive(Clone, Copy, Debug, PartialEq, Eq, Structural)]
pub struct UtcInstant {
    pub unix_seconds: i64,
    pub nanosecond: u32,
}

impl UtcInstant {
    pub open spec fn wf(&self) -> bool {
        self.nanosecond < 1_000_000_000
    }

    /// The current time.
    pub fn now() -> (r: UtcInstant)
        ensures
            r.wf(),
    {
        now_utc()
    }
}

/// Relies on `time::OffsetDateTime::now_utc`, read back with `unix_timestamp` and
/// `nanosecond`; the latter is documented to lie in `0..1_000_000_000`.
#[verifier::external_body]
fn now_utc() -> (r: UtcInstant)
    ensures
        r.nanosecond < 1_000_000_000,
{
    let now = time::OffsetDateTime::now_utc();
    UtcInstant { unix_seconds: now.unix_timestamp(), nanosecond: now.nanosecond() }
}

/// Per-app window behaviour.
#[derive(Clone, Copy, Debug, PartialEq, Eq, Structural)]
pub struct BehaviorConfig {
    pub open_external_links: bool,
    pub show_navigation: bool,
}

pub fn default_open_external_links() -> (r: bool)
    ensures
        r,
{
    true
}

pub fn default_show_navigation() -> (r: bool)
    ensures
        !r,
{
    false
}

/// External links open in the host browser; navigation controls are hidden.
pub open spec fn default_behavior() -> BehaviorConfig {
    BehaviorConfig { open_external_links: true, show_navigation: false }
}

impl Default for BehaviorConfig {
    fn default() -> (r: BehaviorConfig)
        ensures
            r == default_behavior(),
    {
        BehaviorConfig {
            open_external_links: default_open_external_links(),
            show_navigation: default_show_navigation(),
        }
    }
}

/// A configured web app.
#[derive(Clone, Debug)]
pub struct WebAppDefinition {
    pub id: WebAppId,
    pub name: String,
    pub start_url: String,
    pub primary_origin: String,
    pub icon_id: String,
    pub created_at: UtcInstant,
    pub last_launched_at: Option<UtcInstant>,
    pub behavior: BehaviorConfig,
}

impl WebAppDefinition {
    /// The icon identifier is the one derived from the identifier.
    pub open spec fn wf(&self) -> bool {
        self.icon_id@ == icon_id_view(self.id)
    }

    /// A definition for `start_url` with the given identity and creation time; default
    /// behaviour, never launched.
    pub fn from_parts(id: WebAppId, name: String, start_url: &ParsedUrl, created_at: UtcInstant) -> (r:
        WebAppDefinition)
        ensures
            r.wf(),
            r.id == id,
            r.name@ == name@,
            r.start_url@ == start_url.href@,
            r.primary_origin@ == start_url.origin@,
            r.created_at == created_at,
            r.last_launched_at is None,
            r.behavior == default_behavior(),
    {
        WebAppDefinition {
            id,
            name,
            start_url: start_url.href.clone(),
            primary_origin: start_url.origin.clone(),
            icon_id: icon_id_for(id),
            created_at,
            last_launched_at: None,
            behavior: BehaviorConfig::default(),
        }
    }

    /// A new definition with a fresh random identifier, created now.
    pub fn new(name: String, start_url: ParsedUrl) -> (r: WebAppDefinition)
        ensures
            r.wf(),
            r.created_at.wf(),
            r.name@ == name@,
            r.start_url@ == start_url.href@,
            r.primary_origin@ == start_url.origin@,
            r.last_launched_at is None,
            r.behavior == default_behavior(),
    {
        let id = WebAppId::new_v4();
        let now = UtcInstant::now();
        WebAppDefinition::from_parts(id, name, &start_url, now)
    }

    /// Records a launch at `at`; nothing else changes.
    pub fn mark_launched(&mut self, at: UtcInstant)
        ensures
            final(self).last_launched_at == Some(at),
            final(self).id == old(self).id,
            final(self).name == old(self).name,
            final(self).start_url == old(self).start_url,
            final(self).primary_origin == old(self).primary_origin,
            final(self).icon_id == old(self).icon_id,
            final(self).created_at == old(self).created_at,
            final(self).behavior == old(self).behavior,
    {
        self.last_launched_at = Some(at);
    }
}

/// A decision about one capability for one origin.
#[derive(Clone, Copy, Debug, PartialEq, Eq, Structural)]
pub enum PermissionState {
    Ask,
    Allow,
    Block,
}

impl Default for PermissionState {
    fn default() -> (r: PermissionState)
        ensures
            r == PermissionState::Ask,
    {
        PermissionState::Ask
    }
}

/// The four capabilities that an origin may be granted.
#[derive(Clone, Copy, Debug, PartialEq, Eq, Structural)]
pub enum PermissionField {
    Notifications,
    Camera,
    Microphone,
    Location,
}

/// Decisions for one origin.
#[derive(Clone, Copy, Debug, PartialEq, Eq, Structural)]
pub struct PerOriginPermissions {
    pub notifications: PermissionState,
    pub camera: PermissionState,
    pub microphone: PermissionState,
    pub location: PermissionState,
}

/// Every capability is asked for.
pub open spec fn all_ask() -> PerOriginPermissions {
    PerOriginPermissions {
        notifications: PermissionState::Ask,
        camera: PermissionState::Ask,
        microphone: PermissionState::Ask,
        location: PermissionState::Ask,
    }
}

impl Default for PerOriginPermissions {
    fn default() -> (r: PerOriginPermissions)
        ensures
            r == all_ask(),
    {
        PerOriginPermissions {
            notifications: PermissionState::Ask,
            camera: PermissionState::Ask,
            microphone: PermissionState::Ask,
            location: PermissionState::Ask,
        }
    }
}

/// `p` with `field` set to `state`.
pub open spec fn with_field(p: PerOriginPermissions, field: PermissionField, state: PermissionState) -> PerOriginPermissions {
    match field {
        PermissionField::Notifications => PerOriginPermissions { notifications: state, ..p },
        PermissionField::Camera => PerOriginPermissions { camera: state, ..p },
        PermissionField::Microphone => PerOriginPermissions { microphone: state, ..p },
        PermissionField::Location => PerOriginPermissions { location: state, ..p },
    }
}

/// The decision that `p` holds for `field`.
pub open spec fn field_of(p: PerOriginPermissions, field: PermissionField) -> PermissionState {
    match field {
        PermissionField::Notifications => p.notifications,
        PermissionField::Camera => p.camera,
        PermissionField::Microphone => p.microphone,
        PermissionField::Location => p.location,
    }
}

impl PerOriginPermissions {
    pub fn get(&self, field: PermissionField) -> (r: PermissionState)
        ensures
            r == field_of(*self, field),
    {
        match field {
            PermissionField::Notifications => self.notifications,
            PermissionField::Camera => self.camera,
            PermissionField::Microphone => self.microphone,
            PermissionField::Location => self.location,
        }
    }

    pub fn set(&mut self, field: PermissionField, state: PermissionState)
        ensures
            *final(self) == with_field(*old(self), field, state),
    {
        match field {
            PermissionField::Notifications => self.notifications = state,
            PermissionField::Camera => self.camera = state,
            PermissionField::Microphone => self.microphone = state,
            PermissionField::Location => self.location = state,
        }
    }
}

/// The position of a state in the Ask / Allow / Block choice list.
pub open spec fn state_index(state: PermissionState) -> u32 {
    match state {
        PermissionState::Ask => 0,
        PermissionState::Allow => 1,
        PermissionState::Block => 2,
    }
}

pub fn permission_state_to_index(state: PermissionState) -> (r: u32)
    ensures
        r == state_index(state),
{
    match state {
        PermissionState::Ask => 0,
        PermissionState::Allow => 1,
        PermissionState::Block => 2,
    }
}

/// The state at a position of the choice list; any position past the list means Ask.
pub fn index_to_permission_state(index: u32) -> (r: PermissionState)
    ensures
        index < 3 ==> state_index(r) == index,
        index >= 3 ==> r == PermissionState::Ask,
{
    if index == 1 {
        PermissionState::Allow
    } else if index == 2 {
        PermissionState::Block
    } else {
        PermissionState::Ask
    }
}

} // verus!
