//! The on-disk layout under the configuration, data and cache roots.

use vstd::prelude::*;

use crate::ids::WebAppId;
use crate::model::WebAppDefinition;
use crate::text::{join, join_path};

verus! {

/// The roots under which the library keeps its files.
#[derive(Clone, Debug)]
pub struct AppPaths {
    pub config_dir: String,
    pub data_dir: String,
    pub cache_dir: String,
}

/// `<id>.toml`: the file name of an entity's record.
pub open spec fn record_file_name(id: WebAppId) -> Seq<char> {
    id.text_view() + ".toml"@
}

/// A file name whose extension is `toml`.
pub open spec fn is_record_file_name(name: Seq<char>) -> bool {
    name.len() > 5 && name.subrange(name.len() - 5, name.len() as int) == ".toml"@
}

impl AppPaths {
    pub open spec fn apps_dir_view(&self) -> Seq<char> {
        join_path(self.config_dir@, "apps"@)
    }

    pub open spec fn permissions_dir_view(&self) -> Seq<char> {
        join_path(self.config_dir@, "permissions"@)
    }

    pub open spec fn icons_cache_dir_view(&self) -> Seq<char> {
        join_path(self.cache_dir@, "icons"@)
    }

    pub open spec fn profiles_dir_view(&self) -> Seq<char> {
        join_path(self.data_dir@, "profiles"@)
    }

    pub open spec fn profile_dir_view(&self, id: WebAppId) -> Seq<char> {
        join_path(self.profiles_dir_view(), id.text_view())
    }

    pub open spec fn app_path_view(&self, id: WebAppId) -> Seq<char> {
        join_path(self.apps_dir_view(), record_file_name(id))
    }

    pub open spec fn permission_path_view(&self, id: WebAppId) -> Seq<char> {
        join_path(self.permissions_dir_view(), record_file_name(id))
    }

    /// Paths rooted at the given configuration, data and cache directories.
    pub fn from_roots(config_dir: String, data_dir: String, cache_dir: String) -> (r: AppPaths)
        ensures
            r.config_dir == config_dir,
            r.data_dir == data_dir,
            r.cache_dir == cache_dir,
    {
        AppPaths { config_dir, data_dir, cache_dir }
    }

    /// Paths under one root, with `config`, `data` and `cache` directories inside it.
    pub fn for_test(root: &str) -> (r: AppPaths)
        ensures
            r.config_dir@ == join_path(root@, "config"@),
            r.data_dir@ == join_path(root@, "data"@),
            r.cache_dir@ == join_path(root@, "cache"@),
    {
        AppPaths { config_dir: join(root, "config"), data_dir: join(root, "data"), cache_dir: join(root, "cache") }
    }

    pub fn apps_dir(&self) -> (r: String)
        ensures
            r@ == self.apps_dir_view(),
    {
        join(self.config_dir.as_str(), "apps")
    }

    pub fn permissions_dir(&self) -> (r: String)
        ensures
            r@ == self.permissions_dir_view(),
    {
        join(self.config_dir.as_str(), "permissions")
    }

    pub fn icons_cache_dir(&self) -> (r: String)
        ensures
            r@ == self.icons_cache_dir_view(),
    {
        join(self.cache_dir.as_str(), "icons")
    }

    pub fn profiles_dir(&self) -> (r: String)
        ensures
            r@ == self.profiles_dir_view(),
    {
        join(self.data_dir.as_str(), "profiles")
    }

    /// The browser profile directory of an entity: a function of its identifier alone.
    pub fn profile_dir(&self, id: WebAppId) -> (r: String)
        ensures
            r@ == self.profile_dir_view(id),
    {
        join(self.profiles_dir().as_str(), id.text().as_str())
    }

    /// The registry record file of an entity.
    pub fn app_path(&self, id: WebAppId) -> (r: String)
        ensures
            r@ == self.app_path_view(id),
    {
        join(self.apps_dir().as_str(), record_file(id).as_str())
    }

    /// The permission store file of an entity.
    pub fn permission_path(&self, id: WebAppId) -> (r: String)
        ensures
            r@ == self.permission_path_view(id),
    {
        join(self.permissions_dir().as_str(), record_file(id).as_str())
    }
}

fn record_file(id: WebAppId) -> (r: String)
    ensures
        r@ == record_file_name(id),
{
    id.text().concat(".toml")
}

/// Where web app records live: one `<id>.toml` file per entity in the apps directory.
#[derive(Clone, Debug)]
pub struct AppRegistry {
    pub paths: AppPaths,
}

impl AppRegistry {
    pub fn new(paths: AppPaths) -> (r: AppRegistry)
        ensures
            r.paths == paths,
    {
        AppRegistry { paths }
    }

    /// The record file of an entity.
    pub fn app_path(&self, id: WebAppId) -> (r: String)
        ensures
            r@ == self.paths.app_path_view(id),
    {
        self.paths.app_path(id)
    }
}

/// Where permission stores live: one `<id>.toml` file per entity in the permissions
/// directory.
#[derive(Clone, Debug)]
pub struct PermissionRepository {
    pub paths: AppPaths,
}

impl PermissionRepository {
    pub fn new(paths: AppPaths) -> (r: PermissionRepository)
        ensures
            r.paths == paths,
    {
        PermissionRepository { paths }
    }

    /// The permission file of an entity.
    pub fn permission_path(&self, id: WebAppId) -> (r: String)
        ensures
            r@ == self.paths.permission_path_view(id),
    {
        self.paths.permission_path(id)
    }
}

/// Whether a directory entry of the apps directory holds a record: its extension is `toml`.
pub fn is_record_file(name: &str) -> (r: bool)
    ensures
        r == is_record_file_name(name@),
{
    let n = name.unicode_len();
    if n <= 5 {
        return false;
    }
    let tail = name.substring_char(n - 5, n);
    let ext = String::from_str(tail);
    ext == String::from_str(".toml")
}

/// The records that loaded, in order; a record that failed to load is left out.
pub open spec fn loaded_records(s: Seq<Option<WebAppDefinition>>) -> Seq<WebAppDefinition>
    decreases s.len(),
{
    if s.len() == 0 {
        Seq::empty()
    } else {
        match s[0] {
            Some(d) => seq![d] + loaded_records(s.drop_first()),
            None => loaded_records(s.drop_first()),
        }
    }
}

proof fn lemma_loaded_records_concat(a: Seq<Option<WebAppDefinition>>, b: Seq<Option<WebAppDefinition>>)
    ensures
        loaded_records(a + b) == loaded_records(a) + loaded_records(b),
    decreases a.len(),
{
    if a.len() == 0 {
        assert(a + b =~= b);
        assert(loaded_records(a) + loaded_records(b) =~= loaded_records(b));
    } else {
        assert((a + b).drop_first() =~= a.drop_first() + b);
        lemma_loaded_records_concat(a.drop_first(), b);
        match a[0] {
            Some(d) => {
                assert(seq![d] + (loaded_records(a.drop_first()) + loaded_records(b)) =~= (seq![d]
                    + loaded_records(a.drop_first())) + loaded_records(b));
            },
            None => {},
        }
    }
}

/// A record that fails to load hides no other: listing the loads of `before`, one
/// failure, and `after` gives the same records as listing `before` and `after` alone.
pub proof fn lemma_list_tolerance(before: Seq<Option<WebAppDefinition>>, after: Seq<Option<WebAppDefinition>>)
    ensures
        loaded_records(before + seq![None] + after) == loaded_records(before + after),
{
    lemma_loaded_records_concat(before + seq![None], after);
    lemma_loaded_records_concat(before, seq![None]);
    lemma_loaded_records_concat(before, after);
    let none: Seq<Option<WebAppDefinition>> = seq![None];
    assert(none.drop_first() =~= Seq::<Option<WebAppDefinition>>::empty());
    assert(none[0] is None);
    assert(loaded_records(Seq::<Option<WebAppDefinition>>::empty()) =~= Seq::empty());
    assert(loaded_records(none) =~= Seq::empty());
    assert(loaded_records(before) + loaded_records(none) =~= loaded_records(before));
}

/// Keeps the records that loaded, in order.
pub fn collect_loaded(results: Vec<Option<WebAppDefinition>>) -> (r: Vec<WebAppDefinition>)
    ensures
        r@ == loaded_records(results@),
{
    let mut rest = results;
    let mut out: Vec<WebAppDefinition> = Vec::new();
    while rest.len() > 0
        invariant
            out@ + loaded_records(rest@) == loaded_records(results@),
        decreases rest@.len(),
    {
        let ghost before = rest@;
        let ghost out0 = out@;
        let item = rest.remove(0);
        assert(rest@ =~= before.drop_first());
        match item {
            Some(d) => {
                out.push(d);
                assert(out@ + loaded_records(rest@) =~= out0 + (seq![d] + loaded_records(rest@)));
            },
            None => {},
        }
    }
    assert(out@ + loaded_records(rest@) =~= out@);
    out
}

} // verus!
