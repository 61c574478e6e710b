//! What reset and remove delete, and the laws about it.

use vstd::prelude::*;

use crate::ids::{lemma_text_injective, lemma_text_len, WebAppId};
use crate::model::WebAppDefinition;
use crate::paths::AppPaths;
use crate::portal::{desktop_id_for, PortalError};
use crate::text::join_path;

verus! {

/// `path` lies inside directory `dir`.
pub open spec fn is_within(path: Seq<char>, dir: Seq<char>) -> bool {
    &&& dir.len() < path.len()
    &&& path.subrange(0, dir.len() as int) == dir
    &&& path[dir.len() as int] == '/'
}

/// A directory path that is non-empty and has no trailing separator.
pub open spec fn is_root(d: Seq<char>) -> bool {
    d.len() > 0 && d.last() != '/'
}

/// Two distinct directories, neither inside the other.
pub open spec fn apart(x: Seq<char>, y: Seq<char>) -> bool {
    x != y && !is_within(x, y) && !is_within(y, x)
}

impl AppPaths {
    /// The roots are proper directory paths and no two of them share a directory.
    pub open spec fn wf(&self) -> bool {
        &&& is_root(self.config_dir@)
        &&& is_root(self.data_dir@)
        &&& is_root(self.cache_dir@)
        &&& apart(self.config_dir@, self.data_dir@)
        &&& apart(self.config_dir@, self.cache_dir@)
        &&& apart(self.data_dir@, self.cache_dir@)
    }
}

/// Something to delete, as paths.
pub enum Target {
    /// One file.
    File(Seq<char>),
    /// A directory with everything inside it.
    Tree(Seq<char>),
    /// Every file directly in a directory whose name starts with a prefix.
    Prefixed(Seq<char>, Seq<char>),
}

/// A file name that starts with `prefix`.
pub open spec fn has_prefix(name: Seq<char>, prefix: Seq<char>) -> bool {
    prefix.len() <= name.len() && name.subrange(0, prefix.len() as int) == prefix
}

/// Whether a directory entry named `name` is one that a `Prefixed` deletion removes.
pub fn has_name_prefix(name: &str, prefix: &str) -> (r: bool)
    ensures
        r == has_prefix(name@, prefix@),
{
    let n = name.unicode_len();
    let m = prefix.unicode_len();
    if m > n {
        return false;
    }
    String::from_str(name.substring_char(0, m)) == String::from_str(prefix)
}

/// A name with no separator in it.
pub open spec fn is_plain_name(name: Seq<char>) -> bool {
    forall|k: int| 0 <= k < name.len() ==> name[k] != '/'
}

/// Deleting `t` deletes `path`.
pub open spec fn covers(t: Target, path: Seq<char>) -> bool {
    match t {
        Target::File(f) => path == f,
        Target::Tree(d) => path == d || is_within(path, d),
        Target::Prefixed(dir, prefix) => exists|name: Seq<char>|
            has_prefix(name, prefix) && is_plain_name(name) && path == join_path(dir, name),
    }
}

/// Carrying out `plan` deletes `path`.
pub open spec fn removes(plan: Seq<Target>, path: Seq<char>) -> bool {
    exists|i: int| 0 <= i < plan.len() && covers(plan[i], path)
}

/// Reset deletes the permission store, the profile directory and the cached icons of an
/// entity.
pub open spec fn reset_targets(paths: AppPaths, app: WebAppDefinition) -> Seq<Target> {
    seq![
        Target::File(paths.permission_path_view(app.id)),
        Target::Tree(paths.profile_dir_view(app.id)),
        Target::Prefixed(paths.icons_cache_dir_view(), app.icon_id@),
    ]
}

/// Remove deletes what reset deletes, then the registry record.
pub open spec fn remove_targets(paths: AppPaths, app: WebAppDefinition) -> Seq<Target> {
    reset_targets(paths, app).push(Target::File(paths.app_path_view(app.id)))
}

/// A deletion to carry out.
#[derive(Clone, Debug)]
pub enum Removal {
    File(String),
    Tree(String),
    Prefixed(String, String),
}

impl Removal {
    pub open spec fn view(&self) -> Target {
        match self {
            Removal::File(f) => Target::File(f@),
            Removal::Tree(d) => Target::Tree(d@),
            Removal::Prefixed(d, p) => Target::Prefixed(d@, p@),
        }
    }
}

pub open spec fn plan_view(s: Seq<Removal>) -> Seq<Target> {
    s.map_values(|r: Removal| r.view())
}

/// The deletions that reset an entity, in order.
pub fn reset_plan(paths: &AppPaths, app: &WebAppDefinition) -> (r: Vec<Removal>)
    ensures
        plan_view(r@) == reset_targets(*paths, *app),
{
    let mut r: Vec<Removal> = Vec::new();
    r.push(Removal::File(paths.permission_path(app.id)));
    r.push(Removal::Tree(paths.profile_dir(app.id)));
    r.push(Removal::Prefixed(paths.icons_cache_dir(), app.icon_id.clone()));
    assert(plan_view(r@) =~= reset_targets(*paths, *app));
    r
}

/// The steps that remove an entity: the deletions, then the launcher to uninstall.
#[derive(Clone, Debug)]
pub struct RemovePlan {
    pub removals: Vec<Removal>,
    pub launcher_desktop_id: String,
}

/// The steps that remove an entity.
pub fn remove_plan(paths: &AppPaths, app: &WebAppDefinition) -> (r: RemovePlan)
    ensures
        plan_view(r.removals@) == remove_targets(*paths, *app),
        r.launcher_desktop_id@ == app.icon_id@ + ".desktop"@,
{
    let mut removals = reset_plan(paths, app);
    removals.push(Removal::File(paths.app_path(app.id)));
    assert(plan_view(removals@) =~= remove_targets(*paths, *app));
    RemovePlan { removals, launcher_desktop_id: desktop_id_for(app) }
}

/// How a remove ended: it succeeds once the local files are gone; a launcher that could
/// not be uninstalled is only reported.
#[derive(Clone, Copy, Debug, PartialEq, Eq, Structural)]
pub struct RemoveReport {
    pub launcher_warning: bool,
}

/// The report of a remove whose local deletions succeeded, given what the launcher
/// uninstall returned.
pub fn finish_remove(launcher: &Result<(), PortalError>) -> (r: RemoveReport)
    ensures
        r.launcher_warning == launcher is Err,
{
    RemoveReport { launcher_warning: launcher.is_err() }
}

proof fn lemma_join_root(base: Seq<char>, name: Seq<char>)
    requires
        is_root(base),
    ensures
        join_path(base, name) == base + seq!['/'] + name,
        is_within(join_path(base, name), base),
        name.len() > 0 && name.last() != '/' ==> is_root(join_path(base, name)),
{
    let p = base + seq!['/'] + name;
    assert(p.subrange(0, base.len() as int) =~= base);
    assert(p[base.len() as int] == '/');
}

proof fn lemma_within_trans(p: Seq<char>, a: Seq<char>, b: Seq<char>)
    requires
        is_within(p, a),
        is_within(a, b),
    ensures
        is_within(p, b),
{
    assert(p.subrange(0, b.len() as int) =~= a.subrange(0, b.len() as int));
    assert(p[b.len() as int] == p.subrange(0, a.len() as int)[b.len() as int]);
}

proof fn lemma_within_both(p: Seq<char>, x: Seq<char>, y: Seq<char>)
    requires
        is_within(p, x),
        is_within(p, y),
    ensures
        !apart(x, y),
{
    if x.len() == y.len() {
        assert(x =~= y);
    } else if x.len() < y.len() {
        assert(y.subrange(0, x.len() as int) =~= p.subrange(0, x.len() as int));
        assert(y[x.len() as int] == p.subrange(0, y.len() as int)[x.len() as int]);
        assert(is_within(y, x));
    } else {
        assert(x.subrange(0, y.len() as int) =~= p.subrange(0, y.len() as int));
        assert(x[y.len() as int] == p.subrange(0, x.len() as int)[y.len() as int]);
        assert(is_within(x, y));
    }
}

proof fn lemma_same_length_dirs(p: Seq<char>, x: Seq<char>, y: Seq<char>)
    requires
        p == x || is_within(p, x),
        p == y || is_within(p, y),
        x.len() == y.len(),
    ensures
        x == y,
{
    if is_within(p, x) && is_within(p, y) {
        assert(x =~= y);
    }
}

proof fn lemma_layout(paths: AppPaths, id: WebAppId)
    requires
        paths.wf(),
    ensures
        is_within(paths.app_path_view(id), paths.config_dir@),
        is_within(paths.permission_path_view(id), paths.config_dir@),
        is_within(paths.profile_dir_view(id), paths.data_dir@),
        paths.profile_dir_view(id) == paths.profiles_dir_view() + seq!['/'] + id.text_view(),
        is_root(paths.icons_cache_dir_view()),
        is_within(paths.icons_cache_dir_view(), paths.cache_dir@),
        paths.app_path_view(id)[paths.config_dir@.len() as int + 1] == 'a',
        paths.permission_path_view(id)[paths.config_dir@.len() as int + 1] == 'p',
{
    reveal_strlit("apps");
    reveal_strlit("permissions");
    reveal_strlit("profiles");
    reveal_strlit("icons");
    let c = paths.config_dir@;
    lemma_join_root(c, "apps"@);
    lemma_join_root(c, "permissions"@);
    lemma_join_root(paths.data_dir@, "profiles"@);
    lemma_join_root(paths.cache_dir@, "icons"@);
    let apps = paths.apps_dir_view();
    let perms = paths.permissions_dir_view();
    let rec = crate::paths::record_file_name(id);
    lemma_join_root(apps, rec);
    lemma_join_root(perms, rec);
    lemma_within_trans(paths.app_path_view(id), apps, c);
    lemma_within_trans(paths.permission_path_view(id), perms, c);
    lemma_join_root(paths.profiles_dir_view(), id.text_view());
    lemma_within_trans(paths.profile_dir_view(id), paths.profiles_dir_view(), paths.data_dir@);
    assert(paths.app_path_view(id)[c.len() as int + 1] == apps[c.len() as int + 1]);
    assert(paths.permission_path_view(id)[c.len() as int + 1] == perms[c.len() as int + 1]);
}

/// Reset isolation: reset deletes the entity's permission store, everything in its
/// profile directory and every cached icon whose name starts with its icon identifier;
/// it leaves its registry record alone, and nothing in another entity's profile
/// directory.
pub proof fn lemma_reset_isolation(paths: AppPaths, app: WebAppDefinition)
    requires
        paths.wf(),
    ensures
        removes(reset_targets(paths, app), paths.permission_path_view(app.id)),
        forall|q: Seq<char>|
            q == paths.profile_dir_view(app.id) || is_within(q, paths.profile_dir_view(app.id))
                ==> #[trigger] removes(reset_targets(paths, app), q),
        forall|name: Seq<char>|
            has_prefix(name, app.icon_id@) && is_plain_name(name) ==> #[trigger] removes(
                reset_targets(paths, app),
                join_path(paths.icons_cache_dir_view(), name),
            ),
        !removes(reset_targets(paths, app), paths.app_path_view(app.id)),
        forall|other: WebAppId, q: Seq<char>|
            other != app.id && (q == #[trigger] paths.profile_dir_view(other) || is_within(
                q,
                paths.profile_dir_view(other),
            )) ==> !#[trigger] removes(reset_targets(paths, app), q),
{
    let plan = reset_targets(paths, app);
    assert forall|other: WebAppId, q: Seq<char>|
        other != app.id && (q == #[trigger] paths.profile_dir_view(other) || is_within(
            q,
            paths.profile_dir_view(other),
        )) implies !#[trigger] removes(plan, q) by {
        lemma_other_profile_kept(paths, app, other, q);
    }
    assert(covers(plan[0], paths.permission_path_view(app.id)));
    assert forall|q: Seq<char>|
        q == paths.profile_dir_view(app.id) || is_within(q, paths.profile_dir_view(app.id)) implies #[trigger] removes(
        plan,
        q,
    ) by {
        assert(covers(plan[1], q));
    }
    assert forall|name: Seq<char>| has_prefix(name, app.icon_id@) && is_plain_name(name) implies #[trigger] removes(
        plan,
        join_path(paths.icons_cache_dir_view(), name),
    ) by {
        assert(covers(plan[2], join_path(paths.icons_cache_dir_view(), name)));
    }
    let a = paths.app_path_view(app.id);
    lemma_layout(paths, app.id);
    if removes(plan, a) {
        let i = choose|i: int| 0 <= i < plan.len() && covers(plan[i], a);
        if i == 0 {
            assert(a[paths.config_dir@.len() as int + 1] != paths.permission_path_view(app.id)[paths.config_dir@.len() as int + 1]);
        } else if i == 1 {
            let d = paths.profile_dir_view(app.id);
            if a == d {
                lemma_within_both(a, paths.config_dir@, paths.data_dir@);
            } else {
                lemma_within_trans(a, d, paths.data_dir@);
                lemma_within_both(a, paths.config_dir@, paths.data_dir@);
            }
        } else {
            let icons = paths.icons_cache_dir_view();
            let name = choose|name: Seq<char>|
                has_prefix(name, app.icon_id@) && is_plain_name(name) && a == join_path(icons, name);
            lemma_join_root(icons, name);
            lemma_within_trans(a, icons, paths.cache_dir@);
            lemma_within_both(a, paths.config_dir@, paths.cache_dir@);
        }
    }
}

proof fn lemma_other_profile_kept(paths: AppPaths, app: WebAppDefinition, other: WebAppId, q: Seq<char>)
    requires
        paths.wf(),
        other != app.id,
        q == paths.profile_dir_view(other) || is_within(q, paths.profile_dir_view(other)),
    ensures
        !removes(reset_targets(paths, app), q),
{
    let plan = reset_targets(paths, app);
    let own = paths.profile_dir_view(app.id);
    let theirs = paths.profile_dir_view(other);
    lemma_layout(paths, app.id);
    lemma_layout(paths, other);
    if q != theirs {
        lemma_within_trans(q, theirs, paths.data_dir@);
    }
    assert(is_within(q, paths.data_dir@));
    if removes(plan, q) {
        let i = choose|i: int| 0 <= i < plan.len() && covers(plan[i], q);
        if i == 0 {
            lemma_within_both(q, paths.config_dir@, paths.data_dir@);
        } else if i == 1 {
            lemma_text_len(app.id);
            lemma_text_len(other);
            lemma_same_length_dirs(q, own, theirs);
            let k: int = paths.profiles_dir_view().len() as int + 1;
            assert(app.id.text_view() =~= own.subrange(k, own.len() as int));
            assert(other.text_view() =~= theirs.subrange(k, theirs.len() as int));
            lemma_text_injective(app.id, other);
        } else {
            let icons = paths.icons_cache_dir_view();
            let name = choose|name: Seq<char>|
                has_prefix(name, app.icon_id@) && is_plain_name(name) && q == join_path(icons, name);
            lemma_join_root(icons, name);
            lemma_within_trans(q, icons, paths.cache_dir@);
            lemma_within_both(q, paths.data_dir@, paths.cache_dir@);
        }
    }
}

/// Remove completeness: remove deletes the entity's registry record, its permission
/// store, everything in its profile directory and every cached icon whose name starts
/// with its icon identifier.
pub proof fn lemma_remove_completeness(paths: AppPaths, app: WebAppDefinition)
    ensures
        removes(remove_targets(paths, app), paths.app_path_view(app.id)),
        removes(remove_targets(paths, app), paths.permission_path_view(app.id)),
        forall|q: Seq<char>|
            q == paths.profile_dir_view(app.id) || is_within(q, paths.profile_dir_view(app.id))
                ==> #[trigger] removes(remove_targets(paths, app), q),
        forall|name: Seq<char>|
            has_prefix(name, app.icon_id@) && is_plain_name(name) ==> #[trigger] removes(
                remove_targets(paths, app),
                join_path(paths.icons_cache_dir_view(), name),
            ),
{
    let plan = remove_targets(paths, app);
    assert(covers(plan[3], paths.app_path_view(app.id)));
    assert(covers(plan[0], paths.permission_path_view(app.id)));
    assert forall|q: Seq<char>|
        q == paths.profile_dir_view(app.id) || is_within(q, paths.profile_dir_view(app.id)) implies #[trigger] removes(
        plan,
        q,
    ) by {
        assert(covers(plan[1], q));
    }
    assert forall|name: Seq<char>| has_prefix(name, app.icon_id@) && is_plain_name(name) implies #[trigger] removes(
        plan,
        join_path(paths.icons_cache_dir_view(), name),
    ) by {
        assert(covers(plan[2], join_path(paths.icons_cache_dir_view(), name)));
    }
}

} // verus!
