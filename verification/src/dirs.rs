//! Platform directory resolution.
//!
//! A pure function of an environment snapshot: the caller reads the
//! process environment and the working directory once, and resolution
//! only computes path text, never touching the file system.

use vstd::prelude::*;

use crate::paths::path_join;
use crate::paths::spec_join;

verus! {

/// Which platform's conventions apply.
#[derive(Debug, Clone, Copy, PartialEq, Eq, Structural)]
pub enum OsKind {
    Unix,
    MacOs,
    Windows,
}

/// What the process found in its environment, read once at start.
/// A field is `None` where the variable is unset, and `cwd` is `None`
/// where the working directory could not be read.
#[derive(Debug, PartialEq, Eq)]
pub struct EnvSnapshot {
    pub os: OsKind,
    pub cwd: Option<String>,
    pub composer: Option<String>,
    pub xdg_config_home: Option<String>,
    pub xdg_data_home: Option<String>,
    pub xdg_cache_home: Option<String>,
    pub home: Option<String>,
    pub local_app_data: Option<String>,
    pub app_data: Option<String>,
}

/// The four base directories of the tool.
#[derive(Debug, PartialEq, Eq)]
pub struct Directories {
    pub data_dir: String,
    pub archive_dir: String,
    pub cache_dir: String,
    pub home_dir: String,
}

/// Why the directories could not be determined.
#[derive(Debug, PartialEq, Eq)]
pub enum DirectoryError {
    CannotDetermineDirectory(String),
}

/// Whether resolution succeeds for this environment.
pub open spec fn spec_dirs_ok(env: EnvSnapshot) -> bool {
    match env.os {
        OsKind::Unix => (env.xdg_config_home is Some || env.home is Some) && env.cwd is Some,
        OsKind::MacOs => env.home is Some && env.cwd is Some,
        OsKind::Windows => env.local_app_data is Some && env.app_data is Some && env.cwd is Some,
    }
}

/// Which directory the error names, checked in resolution order.
pub open spec fn spec_dirs_err(env: EnvSnapshot) -> Seq<char> {
    match env.os {
        OsKind::Unix => if env.xdg_config_home is None && env.home is None {
            "home"@
        } else {
            "current"@
        },
        OsKind::MacOs => if env.home is None {
            "home"@
        } else {
            "current"@
        },
        OsKind::Windows => if env.local_app_data is None {
            "local app data"@
        } else if env.app_data is None {
            "roaming app data"@
        } else {
            "current"@
        },
    }
}

/// The resolved home directory.
pub open spec fn spec_home_dir(env: EnvSnapshot) -> Seq<char> {
    match env.os {
        OsKind::Unix => match env.xdg_config_home {
            Some(x) => spec_join(x@, "composer"@),
            None => spec_join(env.home->Some_0@, ".composer"@),
        },
        OsKind::MacOs => spec_join(env.home->Some_0@, ".composer"@),
        OsKind::Windows => env.app_data->Some_0@,
    }
}

/// The resolved data directory.
pub open spec fn spec_data_dir(env: EnvSnapshot) -> Seq<char> {
    match env.os {
        OsKind::Unix => match env.xdg_data_home {
            Some(x) => spec_join(x@, "composer"@),
            None => spec_home_dir(env),
        },
        OsKind::MacOs => spec_home_dir(env),
        OsKind::Windows => spec_join(env.app_data->Some_0@, "Composer"@),
    }
}

/// The resolved cache directory.
pub open spec fn spec_cache_dir(env: EnvSnapshot) -> Seq<char> {
    match env.os {
        OsKind::Unix => match env.xdg_cache_home {
            Some(x) => spec_join(x@, "composer"@),
            None => spec_join(spec_home_dir(env), "cache"@),
        },
        OsKind::MacOs => spec_join(env.home->Some_0@, "Library/Caches/composer"@),
        OsKind::Windows => spec_join(env.local_app_data->Some_0@, "Composer"@),
    }
}

impl Directories {
    /// Resolves the four base directories from the environment, first
    /// match first: on Unix the XDG variables, then the home fallback;
    /// on macOS the home directory; on Windows the two app-data
    /// directories. The archive directory is the working directory on
    /// every platform. Nothing is created on disk.
    pub fn try_get_default_directories(env: &EnvSnapshot) -> (r: Result<
        Directories,
        DirectoryError,
    >)
        ensures
            match r {
                Ok(d) => spec_dirs_ok(*env) && d.home_dir@ == spec_home_dir(*env) && d.data_dir@
                    == spec_data_dir(*env) && d.cache_dir@ == spec_cache_dir(*env) && (
                env.cwd matches Some(c) && d.archive_dir@ == c@),
                Err(e) => !spec_dirs_ok(*env) && (e matches DirectoryError::CannotDetermineDirectory(
                    w,
                ) && w@ == spec_dirs_err(*env)),
            },
    {
        match env.os {
            OsKind::Unix => {
                let home_dir = match &env.xdg_config_home {
                    Some(x) => path_join(x.as_str(), "composer"),
                    None => match &env.home {
                        Some(h) => path_join(h.as_str(), ".composer"),
                        None => {
                            return Err(
                                DirectoryError::CannotDetermineDirectory("home".to_owned()),
                            );
                        },
                    },
                };
                let data_dir = match &env.xdg_data_home {
                    Some(x) => path_join(x.as_str(), "composer"),
                    None => home_dir.clone(),
                };
                let cache_dir = match &env.xdg_cache_home {
                    Some(x) => path_join(x.as_str(), "composer"),
                    None => path_join(home_dir.as_str(), "cache"),
                };
                let archive_dir = match &env.cwd {
                    Some(c) => c.clone(),
                    None => {
                        return Err(
                            DirectoryError::CannotDetermineDirectory("current".to_owned()),
                        );
                    },
                };
                Ok(Directories { data_dir, archive_dir, cache_dir, home_dir })
            },
            OsKind::MacOs => {
                let user_home = match &env.home {
                    Some(h) => h,
                    None => {
                        return Err(DirectoryError::CannotDetermineDirectory("home".to_owned()));
                    },
                };
                let home_dir = path_join(user_home.as_str(), ".composer");
                let data_dir = home_dir.clone();
                let cache_dir = path_join(user_home.as_str(), "Library/Caches/composer");
                let archive_dir = match &env.cwd {
                    Some(c) => c.clone(),
                    None => {
                        return Err(
                            DirectoryError::CannotDetermineDirectory("current".to_owned()),
                        );
                    },
                };
                Ok(Directories { data_dir, archive_dir, cache_dir, home_dir })
            },
            OsKind::Windows => {
                let local = match &env.local_app_data {
                    Some(l) => l,
                    None => {
                        return Err(
                            DirectoryError::CannotDetermineDirectory(
                                "local app data".to_owned(),
                            ),
                        );
                    },
                };
                let roaming = match &env.app_data {
                    Some(a) => a,
                    None => {
                        return Err(
                            DirectoryError::CannotDetermineDirectory(
                                "roaming app data".to_owned(),
                            ),
                        );
                    },
                };
                let cache_dir = path_join(local.as_str(), "Composer");
                let home_dir = roaming.clone();
                let data_dir = path_join(roaming.as_str(), "Composer");
                let archive_dir = match &env.cwd {
                    Some(c) => c.clone(),
                    None => {
                        return Err(
                            DirectoryError::CannotDetermineDirectory("current".to_owned()),
                        );
                    },
                };
                Ok(Directories { data_dir, archive_dir, cache_dir, home_dir })
            },
        }
    }
}

} // verus!
