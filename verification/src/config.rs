use vstd::prelude::*;

verus! {

/// The on-disk locations installed in the client configuration when the
/// caller supplies a custom base path: a `cache` subdirectory and a `state`
/// subdirectory of that base.
#[derive(Debug, Clone, PartialEq, Eq)]
pub struct StorageDirs {
    pub cache_dir: String,
    pub state_dir: String,
}

/// What joining one relative component onto a base path yields: the base,
/// a separator unless the base already ends with one or is empty, then the
/// component.
pub open spec fn spec_join(base: Seq<char>, component: Seq<char>) -> Seq<char> {
    if base.len() == 0 {
        component
    } else if base[base.len() - 1] == '/' {
        base + component
    } else {
        base + "/"@ + component
    }
}

/// Join one relative path component onto a base path.
pub fn join_path(base: &str, component: &str) -> (r: String)
    ensures
        r@ == spec_join(base@, component@),
{
    let n: usize = base.unicode_len();
    if n == 0 {
        return String::from_str(component);
    }
    let mut out: String = String::from_str(base);
    if base.get_char(n - 1) != '/' {
        out.append("/");
    }
    out.append(component);
    out
}

/// Compute the two storage directories derived from a caller-supplied base
/// path, by appending the literal names `cache` and `state`.
pub fn storage_dirs(base: &str) -> (r: StorageDirs)
    ensures
        r.cache_dir@ == spec_join(base@, "cache"@),
        r.state_dir@ == spec_join(base@, "state"@),
{
    StorageDirs {
        cache_dir: join_path(base, "cache"),
        state_dir: join_path(base, "state"),
    }
}

/// The configuration the client is built from: library defaults with exactly
/// two adjustments. The outbound address filter always permits onion
/// addresses, and the storage locations are overridden exactly when a custom
/// base path was supplied.
#[derive(Debug, Clone, PartialEq, Eq)]
pub struct ClientConfigPlan {
    pub allow_onion_addrs: bool,
    pub storage: Option<StorageDirs>,
}

/// The view of an optional caller-supplied base path.
pub open spec fn opt_path_view(p: Option<&String>) -> Option<Seq<char>> {
    match p {
        Some(s) => Some(s@),
        None => None,
    }
}

/// The configuration plan that belongs to a given optional base path:
/// onion addresses enabled, and storage directories derived from the base
/// path exactly when one is present.
pub open spec fn plan_matches(p: ClientConfigPlan, custom: Option<Seq<char>>) -> bool {
    &&& p.allow_onion_addrs
    &&& match custom {
        Some(base) => p.storage matches Some(d) && d.cache_dir@ == spec_join(base, "cache"@)
            && d.state_dir@ == spec_join(base, "state"@),
        None => p.storage is None,
    }
}

/// Build the configuration plan for the client: defaults, onion addresses
/// permitted, and, when a custom base path is supplied, the cache and state
/// directories placed under it.
pub fn client_config_plan(custom_path: Option<&String>) -> (r: ClientConfigPlan)
    ensures
        plan_matches(r, opt_path_view(custom_path)),
{
    let storage: Option<StorageDirs> = match custom_path {
        Some(base) => Some(storage_dirs(base.as_str())),
        None => None,
    };
    ClientConfigPlan { allow_onion_addrs: true, storage }
}

} // verus!
