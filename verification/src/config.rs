//! The configuration snapshot.
//!
//! Built once per process from an environment snapshot, then shared
//! read-only; every later override produces a derived copy. Mappings
//! are kept as key-value lists, and durations as whole seconds.

use vstd::prelude::*;

use crate::dirs::spec_cache_dir;
use crate::dirs::spec_data_dir;
use crate::dirs::spec_dirs_err;
use crate::dirs::spec_dirs_ok;
use crate::dirs::spec_home_dir;
use crate::dirs::Directories;
use crate::dirs::DirectoryError;
use crate::dirs::EnvSnapshot;
use crate::json::str_eq;
use crate::paths::path_join;
use crate::paths::replace_json_with_lock;
use crate::paths::spec_join;
use crate::paths::spec_json_to_lock;

verus! {

/// How a package's files are preferably installed.
#[derive(Debug, Clone, Copy, PartialEq, Eq, Structural)]
pub enum PreferredInstallMethod {
    Dist,
    Source,
    Auto,
}

impl Default for PreferredInstallMethod {
    fn default() -> (r: Self)
        ensures
            r == PreferredInstallMethod::Dist,
    {
        PreferredInstallMethod::Dist
    }
}

/// A setting that either applies to every package or is overridden
/// for chosen packages by name.
#[derive(Debug, PartialEq, Eq)]
pub enum PackageSetting<T> {
    Selective(Vec<(String, T)>),
    Global(T),
}

/// The value of the first entry of `s` whose key reads as `name`.
pub open spec fn spec_setting_lookup<T>(s: Seq<(String, T)>, name: Seq<char>) -> Option<T>
    decreases s.len(),
{
    if s.len() == 0 {
        None
    } else if s[0].0@ == name {
        Some(s[0].1)
    } else {
        spec_setting_lookup(s.drop_first(), name)
    }
}

proof fn lemma_setting_lookup_at<T>(s: Seq<(String, T)>, name: Seq<char>, i: int)
    requires
        0 <= i < s.len(),
        s[i].0@ == name,
        forall|k: int| 0 <= k < i ==> s[k].0@ != name,
    ensures
        spec_setting_lookup(s, name) == Some(s[i].1),
    decreases i,
{
    if i > 0 {
        lemma_setting_lookup_at(s.drop_first(), name, i - 1);
    }
}

proof fn lemma_setting_lookup_none<T>(s: Seq<(String, T)>, name: Seq<char>)
    requires
        forall|k: int| 0 <= k < s.len() ==> s[k].0@ != name,
    ensures
        spec_setting_lookup(s, name) is None,
    decreases s.len(),
{
    if s.len() > 0 {
        lemma_setting_lookup_none(s.drop_first(), name);
    }
}

impl<T> PackageSetting<T> {
    /// The value in force for one package: the global value, the
    /// package's own entry, or the given built-in fallback — never an
    /// error.
    pub open spec fn spec_effective(self, name: Seq<char>, fallback: T) -> T {
        match self {
            PackageSetting::Global(t) => t,
            PackageSetting::Selective(m) => match spec_setting_lookup(m@, name) {
                Some(t) => t,
                None => fallback,
            },
        }
    }

    /// Looks the setting up for one package, falling back to the
    /// documented built-in default the caller supplies.
    #[verifier::loop_isolation(false)]
    pub fn effective_value<'a>(&'a self, name: &str, fallback: &'a T) -> (r: &'a T)
        ensures
            *r == self.spec_effective(name@, *fallback),
    {
        match self {
            PackageSetting::Global(t) => t,
            PackageSetting::Selective(m) => {
                let mut i: usize = 0;
                while i < m.len()
                    invariant
                        i <= m@.len(),
                        forall|k: int| 0 <= k < i ==> m@[k].0@ != name@,
                    decreases m@.len() - i,
                {
                    if str_eq(m[i].0.as_str(), name) {
                        proof {
                            lemma_setting_lookup_at(m@, name@, i as int);
                        }
                        return &m[i].1;
                    }
                    i += 1;
                }
                proof {
                    lemma_setting_lookup_none(m@, name@);
                }
                fallback
            },
        }
    }
}

impl<T> Default for PackageSetting<T> {
    fn default() -> (r: Self)
        ensures
            r matches PackageSetting::Selective(m) && m@.len() == 0,
    {
        PackageSetting::Selective(Vec::new())
    }
}

/// What the audit step does with ignored advisories.
#[derive(Debug, PartialEq, Eq)]
pub enum AuditIgnore {
    Simple(Vec<String>),
    Detailed(Vec<(String, String)>),
}

/// What the audit step does with abandoned packages.
#[derive(Debug, Clone, Copy, PartialEq, Eq, Structural)]
pub enum AuditAbandoned {
    Fail,
    Ignore,
    Report,
}

impl Default for AuditAbandoned {
    fn default() -> (r: Self)
        ensures
            r == AuditAbandoned::Fail,
    {
        AuditAbandoned::Fail
    }
}

/// The audit step's settings.
#[derive(Debug, PartialEq, Eq)]
pub struct AuditConfig {
    pub ignore: Option<AuditIgnore>,
    pub abandoned: AuditAbandoned,
}

/// Whether to ask, always agree or always refuse.
#[derive(Debug, Clone, Copy, PartialEq, Eq, Structural)]
pub enum Confirmation {
    Prompt,
    Always,
    Never,
}

impl Default for Confirmation {
    fn default() -> (r: Self)
        ensures
            r == Confirmation::Prompt,
    {
        Confirmation::Prompt
    }
}

/// A GitLab credential: a bare token, or a token with a user name.
#[derive(Debug, PartialEq, Eq)]
pub enum GitlabToken {
    Token(String),
    TokenWithUsername(GitlabTokenWithUsername),
}

/// A GitLab token bound to a user name.
#[derive(Debug, PartialEq, Eq)]
pub struct GitlabTokenWithUsername {
    pub username: String,
    pub token: String,
}

/// A Bitbucket OAuth consumer credential.
#[derive(Debug, PartialEq, Eq)]
pub struct BitbucketToken {
    pub consumer_key: String,
    pub consumer_secret: String,
}

/// A plain user-name-and-password credential.
#[derive(Debug, PartialEq, Eq)]
pub struct HttpBasicToken {
    pub username: String,
    pub password: String,
}

/// How vendored binaries are exposed.
#[derive(Debug, Clone, Copy, PartialEq, Eq, Structural)]
pub enum BinaryCompatibility {
    Auto,
    Proxy,
    Full,
}

impl Default for BinaryCompatibility {
    fn default() -> (r: Self)
        ensures
            r == BinaryCompatibility::Auto,
    {
        BinaryCompatibility::Auto
    }
}

/// What happens to locally modified packages.
#[derive(Debug, Clone, Copy, PartialEq, Eq, Structural)]
pub enum DiscardChanges {
    Never,
    Always,
    Stash,
}

impl Default for DiscardChanges {
    fn default() -> (r: Self)
        ensures
            r == DiscardChanges::Never,
    {
        DiscardChanges::Never
    }
}

/// Which platform requirements are checked before an install.
#[derive(Debug, Clone, Copy, PartialEq, Eq, Structural)]
pub enum PlatformCheck {
    PhpOnly,
    All,
    Disabled,
}

impl Default for PlatformCheck {
    fn default() -> (r: Self)
        ensures
            r == PlatformCheck::PhpOnly,
    {
        PlatformCheck::PhpOnly
    }
}

/// Why the configuration could not be built.
#[derive(Debug, PartialEq, Eq)]
pub enum ConfigError {
    CannotDetermineConfigDirectory(String),
    IoError(String),
}

impl From<DirectoryError> for ConfigError {
    fn from(value: DirectoryError) -> (r: Self) {
        match value {
            DirectoryError::CannotDetermineDirectory(dir) => {
                ConfigError::CannotDetermineConfigDirectory(dir)
            },
        }
    }
}

impl vstd::std_specs::convert::FromSpecImpl<DirectoryError> for ConfigError {
    open spec fn obeys_from_spec() -> bool {
        true
    }

    open spec fn from_spec(t: DirectoryError) -> Self {
        ConfigError::CannotDetermineConfigDirectory(t->CannotDetermineDirectory_0)
    }
}

/// The manifest file's name: the override from the environment, or
/// the conventional name.
pub open spec fn spec_manifest_name(env: EnvSnapshot) -> Seq<char> {
    match env.composer {
        Some(m) => m@,
        None => "composer.json"@,
    }
}

/// Derives the manifest and lock paths under a working directory: the
/// manifest name comes from the override or the conventional name,
/// and the lock name rewrites `json` to `lock` in it.
pub fn determine_composer_file_paths(cwd: &str, composer: &Option<String>) -> (r: (
    String,
    String,
))
    ensures
        r.0@ == spec_join(
            cwd@,
            match *composer {
                Some(m) => m@,
                None => "composer.json"@,
            },
        ),
        r.1@ == spec_join(
            cwd@,
            spec_json_to_lock(
                match *composer {
                    Some(m) => m@,
                    None => "composer.json"@,
                },
            ),
        ),
{
    let name: String = match composer {
        Some(m) => m.clone(),
        None => "composer.json".to_owned(),
    };
    let lock_name = replace_json_with_lock(name.as_str());
    (path_join(cwd, name.as_str()), path_join(cwd, lock_name.as_str()))
}

/// The immutable configuration snapshot, built once per process.
#[derive(Debug, PartialEq, Eq)]
pub struct Config {
    pub allow_plugins: PackageSetting<bool>,
    pub allow_superuser: bool,
    pub apcu_autoloader: bool,
    pub archive_dir: String,
    pub archive_format: String,
    pub audit: AuditConfig,
    pub autoloader_suffix: Option<String>,
    pub bearer: Option<Vec<(String, String)>>,
    pub bin_compat: BinaryCompatibility,
    pub bin_dir: String,
    pub bitbucket_oauth: Option<Vec<(String, BitbucketToken)>>,
    pub cache_dir: String,
    pub cache_files_dir: String,
    /// The cache's size cap, in MiB.
    pub cache_files_maxsize: u32,
    /// How long cached files live, in whole seconds.
    pub cache_files_ttl: u64,
    pub cache_read_only: bool,
    pub cache_repo_dir: String,
    pub cache_vcs_dir: String,
    pub cafile: Option<String>,
    pub capath: Option<String>,
    pub classmap_authoritative: bool,
    pub composer_home: String,
    pub composer_json: String,
    pub composer_lock: String,
    pub data_dir: String,
    pub disable_tls: bool,
    pub discard_changes: DiscardChanges,
    pub github_domains: Vec<String>,
    pub github_expose_hostname: bool,
    pub github_oauth: Option<Vec<(String, String)>>,
    pub github_protocols: Vec<String>,
    pub gitlab_domains: Vec<String>,
    pub gitlab_oauth: Option<Vec<(String, String)>>,
    pub gitlab_protocol: Option<String>,
    pub gitlab_tokens: Option<Vec<(String, GitlabToken)>>,
    pub htaccess_protect: bool,
    pub http_basic: Option<Vec<(String, HttpBasicToken)>>,
    pub lock: bool,
    pub notify_on_install: bool,
    pub optimize_autoloader: bool,
    pub platform: Option<Vec<(String, String)>>,
    pub platform_check: PlatformCheck,
    pub preferred_install: PackageSetting<PreferredInstallMethod>,
    pub prepend_autoloader: bool,
    pub process_timeout: u32,
    pub secure_http: bool,
    pub secure_svn_domains: Vec<String>,
    pub sort_packages: bool,
    pub store_auths: Confirmation,
    pub use_github_api: bool,
    pub use_include_path: bool,
    pub use_parent_dir: Confirmation,
    pub vendor_dir: String,
}

impl Config {
    /// Builds the one configuration snapshot for this process from
    /// an environment snapshot: the working directory decides the
    /// project paths, the platform directories come from the
    /// directory resolver, and every remaining field takes its
    /// built-in default. No partial snapshot is ever returned.
    #[verifier::rlimit(100)]
    pub fn build(env: &EnvSnapshot) -> (r: Result<Config, ConfigError>)
        ensures
            match r {
                Ok(c) => {
                    &&& env.cwd is Some
                    &&& spec_dirs_ok(*env)
                    &&& c.archive_dir@ == env.cwd->Some_0@
                    &&& c.vendor_dir@ == spec_join(env.cwd->Some_0@, "vendor"@)
                    &&& c.bin_dir@ == spec_join(spec_join(env.cwd->Some_0@, "vendor"@), "bin"@)
                    &&& c.composer_json@ == spec_join(env.cwd->Some_0@, spec_manifest_name(*env))
                    &&& c.composer_lock@ == spec_join(env.cwd->Some_0@, spec_json_to_lock(spec_manifest_name(*env)))
                    &&& c.composer_home@ == spec_home_dir(*env)
                    &&& c.data_dir@ == spec_data_dir(*env)
                    &&& c.cache_dir@ == spec_cache_dir(*env)
                    &&& c.cache_files_dir@ == spec_join(spec_cache_dir(*env), "files"@)
                    &&& c.cache_repo_dir@ == spec_join(spec_cache_dir(*env), "repo"@)
                    &&& c.cache_vcs_dir@ == spec_join(spec_cache_dir(*env), "vcs"@)
                    &&& c.archive_format@ == "tar"@
                    &&& c.cache_files_maxsize == 300
                    &&& c.cache_files_ttl == 15552000
                    &&& c.process_timeout == 300
                    &&& c.allow_plugins matches PackageSetting::Selective(m) && m@.len() == 0
                    &&& c.preferred_install matches PackageSetting::Global(PreferredInstallMethod::Dist)
                    &&& c.audit.ignore is None
                    &&& c.audit.abandoned == AuditAbandoned::Fail
                    &&& c.bin_compat == BinaryCompatibility::Auto
                    &&& c.discard_changes == DiscardChanges::Never
                    &&& c.platform_check == PlatformCheck::PhpOnly
                    &&& c.store_auths == Confirmation::Prompt
                    &&& c.use_parent_dir == Confirmation::Prompt
                    &&& c.allow_superuser == false
                    &&& c.apcu_autoloader == false
                    &&& c.cache_read_only == false
                    &&& c.classmap_authoritative == false
                    &&& c.disable_tls == false
                    &&& c.github_expose_hostname == true
                    &&& c.htaccess_protect == true
                    &&& c.lock == true
                    &&& c.notify_on_install == true
                    &&& c.optimize_autoloader == false
                    &&& c.prepend_autoloader == true
                    &&& c.secure_http == true
                    &&& c.sort_packages == false
                    &&& c.use_github_api == true
                    &&& c.use_include_path == true
                    &&& c.autoloader_suffix is None
                    &&& c.bearer is None
                    &&& c.bitbucket_oauth is None
                    &&& c.cafile is None
                    &&& c.capath is None
                    &&& c.github_oauth is None
                    &&& c.gitlab_oauth is None
                    &&& c.gitlab_protocol is None
                    &&& c.gitlab_tokens is None
                    &&& c.http_basic is None
                    &&& c.platform is None
                    &&& c.github_domains@.len() == 1 && c.github_domains@[0]@ == "github.com"@
                    &&& c.github_protocols@.len() == 3 && c.github_protocols@[0]@ == "https"@ && c.github_protocols@[1]@ == "ssh"@ && c.github_protocols@[2]@ == "git"@
                    &&& c.gitlab_domains@.len() == 1 && c.gitlab_domains@[0]@ == "gitlab.com"@
                    &&& c.secure_svn_domains@.len() == 0
                },
                Err(e) => {
                    &&& (env.cwd is None || !spec_dirs_ok(*env))
                    &&& (env.cwd is None ==> e is IoError)
                    &&& (env.cwd is Some && !spec_dirs_ok(*env) ==> (
                    e matches ConfigError::CannotDetermineConfigDirectory(wd) && wd@
                        == spec_dirs_err(*env)))
                },
            },
    {
        let cwd = match &env.cwd {
            Some(c) => c.clone(),
            None => return Err(ConfigError::IoError("cannot read the current working directory".to_owned())),
        };
        let vendor_dir = path_join(cwd.as_str(), "vendor");
        let paths = determine_composer_file_paths(cwd.as_str(), &env.composer);
        let composer_json = paths.0;
        let composer_lock = paths.1;
        let dirs = match Directories::try_get_default_directories(env) {
            Ok(d) => d,
            Err(e) => return Err(ConfigError::from(e)),
        };
        let cache_files_dir = path_join(dirs.cache_dir.as_str(), "files");
        let cache_repo_dir = path_join(dirs.cache_dir.as_str(), "repo");
        let cache_vcs_dir = path_join(dirs.cache_dir.as_str(), "vcs");
        let bin_dir = path_join(vendor_dir.as_str(), "bin");
        let mut github_domains: Vec<String> = Vec::new();
        github_domains.push("github.com".to_owned());
        let mut github_protocols: Vec<String> = Vec::new();
        github_protocols.push("https".to_owned());
        github_protocols.push("ssh".to_owned());
        github_protocols.push("git".to_owned());
        let mut gitlab_domains: Vec<String> = Vec::new();
        gitlab_domains.push("gitlab.com".to_owned());
        Ok(
            Config {
                allow_plugins: PackageSetting::Selective(Vec::new()),
                allow_superuser: false,
                apcu_autoloader: false,
                archive_dir: dirs.archive_dir,
                archive_format: "tar".to_owned(),
                audit: AuditConfig { ignore: None, abandoned: AuditAbandoned::Fail },
                autoloader_suffix: None,
                bearer: None,
                bin_compat: BinaryCompatibility::Auto,
                bin_dir,
                bitbucket_oauth: None,
                cache_dir: dirs.cache_dir,
                cache_files_dir,
                cache_files_maxsize: 300,
                cache_files_ttl: 15552000,
                cache_read_only: false,
                cache_repo_dir,
                cache_vcs_dir,
                cafile: None,
                capath: None,
                classmap_authoritative: false,
                composer_home: dirs.home_dir,
                composer_json,
                composer_lock,
                data_dir: dirs.data_dir,
                disable_tls: false,
                discard_changes: DiscardChanges::Never,
                github_domains,
                github_expose_hostname: true,
                github_oauth: None,
                github_protocols,
                gitlab_domains,
                gitlab_oauth: None,
                gitlab_protocol: None,
                gitlab_tokens: None,
                htaccess_protect: true,
                http_basic: None,
                lock: true,
                notify_on_install: true,
                optimize_autoloader: false,
                platform: None,
                platform_check: PlatformCheck::PhpOnly,
                preferred_install: PackageSetting::Global(PreferredInstallMethod::Dist),
                prepend_autoloader: true,
                process_timeout: 300,
                secure_http: true,
                secure_svn_domains: Vec::new(),
                sort_packages: false,
                store_auths: Confirmation::Prompt,
                use_github_api: true,
                use_include_path: true,
                use_parent_dir: Confirmation::Prompt,
                vendor_dir,
            },
        )
    }
}

} // verus!
