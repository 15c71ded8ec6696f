use vstd::prelude::*;
use vstd::string::StringExecFns;

use crate::error::{AppError, AppErrorView, AppResult};
use crate::text::chars_of;

verus! {

/// Every location the daemon reads or writes, as path text.
#[derive(Debug, Clone)]
pub struct AppPaths {
    pub config_dir: String,
    pub data_dir: String,
    pub cache_dir: String,
    pub logs_dir: String,
    pub state_dir: String,
    pub config_file: String,
    pub history_db: String,
    pub autostart_file: String,
}

/// Mathematical model of [`AppPaths`].
pub struct AppPathsView {
    pub config_dir: Seq<char>,
    pub data_dir: Seq<char>,
    pub cache_dir: Seq<char>,
    pub logs_dir: Seq<char>,
    pub state_dir: Seq<char>,
    pub config_file: Seq<char>,
    pub history_db: Seq<char>,
    pub autostart_file: Seq<char>,
}

impl View for AppPaths {
    type V = AppPathsView;

    open spec fn view(&self) -> AppPathsView {
        AppPathsView {
            config_dir: self.config_dir@,
            data_dir: self.data_dir@,
            cache_dir: self.cache_dir@,
            logs_dir: self.logs_dir@,
            state_dir: self.state_dir@,
            config_file: self.config_file@,
            history_db: self.history_db@,
            autostart_file: self.autostart_file@,
        }
    }
}

/// `name` placed under `base`: an absolute `name` replaces `base`; otherwise the two are
/// joined with exactly one separator between them.
pub open spec fn spec_join_path(base: Seq<char>, name: Seq<char>) -> Seq<char> {
    if name.len() > 0 && name[0] == '/' {
        name
    } else if base.len() == 0 || base.last() == '/' {
        base + name
    } else {
        base + "/"@ + name
    }
}

/// Places `name` under `base`.
pub fn join_path(base: &str, name: &str) -> (r: String)
    ensures
        r@ == spec_join_path(base@, name@),
{
    let b = chars_of(base);
    let n = chars_of(name);
    if n.len() > 0 && n[0] == '/' {
        return String::from_str(name);
    }
    let mut r = String::from_str(base);
    if b.len() > 0 && b[b.len() - 1] != '/' {
        r.append("/");
    }
    r.append(name);
    proof {
        reveal_strlit("/");
        assert(r@ =~= spec_join_path(base@, name@));
    }
    r
}

/// Whether `path` lies under `dir`: it is `dir` extended by further components.
pub open spec fn spec_within(path: Seq<char>, dir: Seq<char>) -> bool {
    exists|name: Seq<char>| path == #[trigger] spec_join_path(dir, name)
}

impl AppPathsView {
    /// The layout derived from the three platform directories and the autostart location.
    pub open spec fn from_dirs(
        config_dir: Seq<char>,
        data_dir: Seq<char>,
        cache_dir: Seq<char>,
        autostart_file: Seq<char>,
    ) -> AppPathsView {
        AppPathsView {
            config_dir,
            data_dir,
            cache_dir,
            logs_dir: spec_join_path(cache_dir, "logs"@),
            state_dir: spec_join_path(cache_dir, "fw-state"@),
            config_file: spec_join_path(config_dir, "config.toml"@),
            history_db: spec_join_path(data_dir, "history.sqlite3"@),
            autostart_file,
        }
    }

    /// Layout invariant: logs and engine state live inside the cache directory.
    pub open spec fn well_formed(self) -> bool {
        spec_within(self.logs_dir, self.cache_dir) && spec_within(self.state_dir, self.cache_dir)
    }
}

/// Where the autostart entry goes: a launch agent under the home directory on macOS, a
/// desktop entry under the base configuration directory elsewhere.
pub open spec fn spec_autostart_file(home_dir: Seq<char>, base_config_dir: Seq<char>, macos: bool) -> Seq<
    char,
> {
    if macos {
        spec_join_path(
            spec_join_path(spec_join_path(home_dir, "Library"@), "LaunchAgents"@),
            "io.quedo.daemon.plist"@,
        )
    } else {
        spec_join_path(spec_join_path(base_config_dir, "autostart"@), "quedo-daemon.desktop"@)
    }
}

/// Computes the autostart entry's location.
pub fn autostart_file(home_dir: &str, base_config_dir: &str, macos: bool) -> (r: String)
    ensures
        r@ == spec_autostart_file(home_dir@, base_config_dir@, macos),
{
    if macos {
        let a = join_path(home_dir, "Library");
        let b = join_path(a.as_str(), "LaunchAgents");
        join_path(b.as_str(), "io.quedo.daemon.plist")
    } else {
        let a = join_path(base_config_dir, "autostart");
        join_path(a.as_str(), "quedo-daemon.desktop")
    }
}

/// The per-project directories of the platform.
#[derive(Debug, Clone)]
pub struct ProjectDirectories {
    pub config_dir: String,
    pub data_local_dir: String,
    pub cache_dir: String,
}

/// The per-user base directories of the platform.
#[derive(Debug, Clone)]
pub struct BaseDirectories {
    pub home_dir: String,
    pub config_dir: String,
}

/// Asks `directories::ProjectDirs::from` for the project's directories and reads its
/// `config_dir`, `data_local_dir` and `cache_dir`. The answer depends on the user's
/// environment, so nothing is claimed about it.
#[verifier::external_body]
fn project_directories(qualifier: &str, organization: &str, application: &str) -> (r: Option<
    ProjectDirectories,
>) {
    let dirs = directories::ProjectDirs::from(qualifier, organization, application)?;
    Some(
        ProjectDirectories {
            config_dir: dirs.config_dir().display().to_string(),
            data_local_dir: dirs.data_local_dir().display().to_string(),
            cache_dir: dirs.cache_dir().display().to_string(),
        },
    )
}

/// Asks `directories::BaseDirs::new` for the user's directories and reads its `home_dir`
/// and `config_dir`. The answer depends on the user's environment, so nothing is claimed
/// about it.
#[verifier::external_body]
fn base_directories() -> (r: Option<BaseDirectories>) {
    let dirs = directories::BaseDirs::new()?;
    Some(
        BaseDirectories {
            home_dir: dirs.home_dir().display().to_string(),
            config_dir: dirs.config_dir().display().to_string(),
        },
    )
}

/// The layout for what the platform reported, or the reason none can be made.
pub open spec fn spec_from_platform(
    project: Option<ProjectDirectories>,
    base: Option<BaseDirectories>,
    macos: bool,
) -> Result<AppPathsView, AppErrorView> {
    match project {
        None => Err(AppErrorView::Config("unable to resolve project directories"@)),
        Some(p) => match base {
            None => Err(AppErrorView::Config("unable to resolve base directories"@)),
            Some(b) => Ok(
                AppPathsView::from_dirs(
                    p.config_dir@,
                    p.data_local_dir@,
                    p.cache_dir@,
                    spec_autostart_file(b.home_dir@, b.config_dir@, macos),
                ),
            ),
        },
    }
}

impl AppPaths {
    /// Lays out every path from the platform's project directories.
    pub fn from_dirs(config_dir: String, data_dir: String, cache_dir: String, autostart_file: String) -> (r:
        Self)
        ensures
            r@ == AppPathsView::from_dirs(config_dir@, data_dir@, cache_dir@, autostart_file@),
            r@.well_formed(),
    {
        let logs_dir = join_path(cache_dir.as_str(), "logs");
        let state_dir = join_path(cache_dir.as_str(), "fw-state");
        let config_file = join_path(config_dir.as_str(), "config.toml");
        let history_db = join_path(data_dir.as_str(), "history.sqlite3");
        AppPaths {
            config_dir,
            data_dir,
            cache_dir,
            logs_dir,
            state_dir,
            config_file,
            history_db,
            autostart_file,
        }
    }

    /// Lays out the paths for what the platform reported about its directories.
    pub fn from_platform(project: Option<ProjectDirectories>, base: Option<BaseDirectories>, macos: bool) -> (r:
        AppResult<Self>)
        ensures
            match spec_from_platform(project, base, macos) {
                Ok(expected) => r matches Ok(paths) && paths@ == expected && paths@.well_formed(),
                Err(expected) => r matches Err(e) && e@ == expected,
            },
    {
        let project = match project {
            Some(p) => p,
            None => return Err(
                AppError::Config(String::from_str("unable to resolve project directories")),
            ),
        };
        let base = match base {
            Some(b) => b,
            None => return Err(AppError::Config(String::from_str("unable to resolve base directories"))),
        };
        let autostart = autostart_file(base.home_dir.as_str(), base.config_dir.as_str(), macos);
        Ok(AppPaths::from_dirs(project.config_dir, project.data_local_dir, project.cache_dir, autostart))
    }

    /// Resolves every path from the directories the platform assigns to the project.
    /// What the platform reports depends on the user's environment; whatever it reports,
    /// the layout is the one [`AppPaths::from_platform`] derives from it.
    pub fn resolve(macos: bool) -> (r: AppResult<Self>)
        ensures
            r matches Ok(paths) ==> paths@.well_formed() && exists|
                project: ProjectDirectories,
                base: BaseDirectories,
            | #[trigger]
                spec_from_platform(Some(project), Some(base), macos) == Ok::<AppPathsView, AppErrorView>(paths@),
            r matches Err(e) ==> e@ == AppErrorView::Config("unable to resolve project directories"@) || e@
                == AppErrorView::Config("unable to resolve base directories"@),
    {
        let project = project_directories("io", "quedo", "quedo");
        let base = base_directories();
        let r = AppPaths::from_platform(project, base, macos);
        proof {
            if r is Ok {
                assert(spec_from_platform(Some(project->0), Some(base->0), macos) == Ok::<
                    AppPathsView,
                    AppErrorView,
                >(r->Ok_0@));
            }
        }
        r
    }

    /// Copies the paths.
    pub fn duplicate(&self) -> (r: Self)
        ensures
            r@ == self@,
    {
        AppPaths {
            config_dir: self.config_dir.clone(),
            data_dir: self.data_dir.clone(),
            cache_dir: self.cache_dir.clone(),
            logs_dir: self.logs_dir.clone(),
            state_dir: self.state_dir.clone(),
            config_file: self.config_file.clone(),
            history_db: self.history_db.clone(),
            autostart_file: self.autostart_file.clone(),
        }
    }
}

} // verus!
