//! Resolution of the storage directory.
//!
//! Three options are tried in strict order: the platform-native application
//! configuration directory, a `.config` directory under the home directory,
//! and finally a fixed relative directory. The first option that can be
//! computed wins; whether the directory exists on disk plays no part in the
//! choice and is recorded for diagnostics only.

use vstd::prelude::*;
use vstd::string::StringExecFns;
use crate::config;

verus! {

/// Which of the three ordered options produced the storage directory.
#[derive(Clone, Copy, PartialEq, Eq, Debug)]
pub enum PathOrigin {
    /// The platform-native application configuration directory was available.
    PlatformConfigDir,
    /// No native directory, but a home directory was available.
    HomeFallback,
    /// Neither was available: the fixed relative fallback.
    EmergencyRelative,
}

/// The resolved storage directory. Computed once at startup and never
/// mutated afterwards.
#[derive(Clone, Debug)]
pub struct StoragePath {
    /// The directory expected to hold the database file.
    pub dir: String,
    /// Which fallback produced `dir`.
    pub origin: PathOrigin,
    /// Whether the directory existed when it was resolved. Diagnostic only:
    /// it never influences which option is chosen.
    pub exists: bool,
}

/// The origin that resolution picks, given which options are computable.
pub open spec fn resolved_origin_spec(has_native: bool, has_home: bool) -> PathOrigin {
    if has_native {
        PathOrigin::PlatformConfigDir
    } else if has_home {
        PathOrigin::HomeFallback
    } else {
        PathOrigin::EmergencyRelative
    }
}

/// The directory that resolution picks.
pub open spec fn resolved_dir_spec(native: Option<Seq<char>>, home: Option<Seq<char>>) -> Seq<
    char,
> {
    if native is Some {
        native.unwrap()
    } else if home is Some {
        home.unwrap() + config::home_config_suffix_spec()
    } else {
        config::emergency_dir_spec()
    }
}

/// Resolve the storage directory from the environment's observations.
///
/// `platform_config_dir` is the platform-native configuration directory, if
/// the host environment exposes one; `home` is the home directory, if a
/// HOME-equivalent variable is set; `dir_exists` is whether the chosen
/// directory currently exists on disk (diagnostic only). A higher-priority
/// option, once computable, always wins: no lower fallback is consulted.
pub fn resolve_storage_path(
    platform_config_dir: Option<String>,
    home: Option<String>,
    dir_exists: bool,
) -> (r: StoragePath)
    ensures
        r.origin == resolved_origin_spec(platform_config_dir is Some, home is Some),
        r.dir@ == resolved_dir_spec(
            match platform_config_dir {
                Some(d) => Some(d@),
                None => None,
            },
            match home {
                Some(h) => Some(h@),
                None => None,
            },
        ),
        r.exists == dir_exists,
{
    match platform_config_dir {
        Some(dir) => StoragePath { dir, origin: PathOrigin::PlatformConfigDir, exists: dir_exists },
        None => match home {
            Some(h) => StoragePath {
                dir: h.concat(config::home_config_suffix()),
                origin: PathOrigin::HomeFallback,
                exists: dir_exists,
            },
            None => StoragePath {
                dir: String::from_str(config::emergency_dir()),
                origin: PathOrigin::EmergencyRelative,
                exists: dir_exists,
            },
        },
    }
}

/// The first computable option always wins, independent of anything on
/// disk: an available platform directory decides the origin whatever else
/// is set; the home fallback decides only when no platform directory is
/// available; the emergency fallback is chosen exactly when nothing else
/// is computable, so resolution always terminates with a path.
pub proof fn lemma_first_computable_option_wins(has_native: bool, has_home: bool)
    ensures
        has_native ==> resolved_origin_spec(has_native, has_home) is PlatformConfigDir,
        !has_native && has_home ==> resolved_origin_spec(has_native, has_home) is HomeFallback,
        !has_native && !has_home ==> resolved_origin_spec(has_native, has_home)
            is EmergencyRelative,
{
}

/// The full path of the database file inside a storage directory.
pub open spec fn db_file_path_spec(dir: Seq<char>) -> Seq<char> {
    dir + "/"@ + config::db_filename_spec()
}

impl StoragePath {
    /// The full path of the database file inside this directory.
    pub fn database_file_path(&self) -> (r: String)
        ensures
            r@ == db_file_path_spec(self.dir@),
    {
        String::from_str(self.dir.as_str()).concat("/").concat(config::db_filename())
    }
}

} // verus!
