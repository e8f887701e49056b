use vstd::prelude::*;
use crate::config::Config;
use crate::error::{Error, ErrorView};
use crate::path::path_join;
use crate::toolset::Toolset;

verus! {

/// The top-level domain of the organization, for the directories of the operating system.
pub const ORG_TLD: &'static str = "ee";

/// The name of the organization, for the directories of the operating system.
pub const ORG_NAME: &'static str = "Nevermore";

/// The name of the application, for the directories of the operating system.
pub const APP_NAME: &'static str = "Prep";

/// The name of the directory of a project that holds what belongs to Prep.
pub const PREP_DIR: &'static str = ".prep";

/// The name of the configuration file.
pub const CONFIG_FILE: &'static str = "prep.toml";

/// The path of the configuration file of a project whose root directory is `dir`.
pub open spec fn config_path_of(dir: Seq<char>) -> Seq<char> {
    path_join(path_join(dir, PREP_DIR@), CONFIG_FILE@)
}

/// Returns the path at which the configuration file of a project is looked for, if `dir` is
/// the root directory of the project.
pub fn config_path_in(dir: &str) -> (r: String)
    ensures
        r@ == config_path_of(dir@),
{
    let prep_dir = crate::path::join(dir, PREP_DIR);
    crate::path::join(prep_dir.as_str(), CONFIG_FILE)
}

/// Information about the current runtime session.
pub struct Session {
    /// The project root directory.
    root_dir: String,
    /// The project's prep directory.
    prep_dir: String,
    /// The project's prep config path.
    config_path: String,
    /// Active configuration.
    config: Config,
    /// Toolset.
    toolset: Toolset,
}

impl Session {
    /// The project root directory.
    pub closed spec fn spec_root_dir(&self) -> Seq<char> {
        self.root_dir@
    }

    /// The project's prep directory.
    pub closed spec fn spec_prep_dir(&self) -> Seq<char> {
        self.prep_dir@
    }

    /// The project's prep config path.
    pub closed spec fn spec_config_path(&self) -> Seq<char> {
        self.config_path@
    }

    /// The active configuration.
    pub closed spec fn spec_config(&self) -> Config {
        self.config
    }

    /// The toolset.
    pub closed spec fn spec_toolset(&self) -> Toolset {
        self.toolset
    }

    /// Returns a new session for the project in `root_dir`. `config` is what the
    /// configuration file of the project holds; `None` says that there is no such file,
    /// and the configuration is then the default one.
    pub fn new(root_dir: String, config: Option<Config>, toolset: Toolset) -> (r: Session)
        ensures
            r.spec_root_dir() == root_dir@,
            r.spec_prep_dir() == path_join(root_dir@, PREP_DIR@),
            r.spec_config_path() == config_path_of(root_dir@),
            r.spec_toolset() == toolset,
            config matches Some(c) ==> r.spec_config() == c,
            config is None ==> r.spec_config().spec_project().is_default()
                && r.spec_config().spec_tools().is_default(),
    {
        let prep_dir = crate::path::join(root_dir.as_str(), PREP_DIR);
        let config_path = crate::path::join(prep_dir.as_str(), CONFIG_FILE);
        let config = match config {
            Some(config) => config,
            None => Config::new(),
        };
        Session { root_dir, prep_dir, config_path, config, toolset }
    }

    /// Returns the project root directory.
    pub fn root_dir(&self) -> (r: &str)
        ensures
            r@ == self.spec_root_dir(),
    {
        self.root_dir.as_str()
    }

    /// Returns the project's prep directory.
    pub fn prep_dir(&self) -> (r: &str)
        ensures
            r@ == self.spec_prep_dir(),
    {
        self.prep_dir.as_str()
    }

    /// Returns the project's prep config path.
    pub fn config_path(&self) -> (r: &str)
        ensures
            r@ == self.spec_config_path(),
    {
        self.config_path.as_str()
    }

    /// Returns the project's prep config.
    pub fn config(&self) -> (r: &Config)
        ensures
            *r == self.spec_config(),
    {
        &self.config
    }

    /// Returns this session's toolset.
    pub fn toolset(&mut self) -> (r: &mut Toolset)
        ensures
            *r == old(self).spec_toolset(),
            final(self).spec_toolset() == *final(r),
            final(self).spec_root_dir() == old(self).spec_root_dir(),
            final(self).spec_prep_dir() == old(self).spec_prep_dir(),
            final(self).spec_config_path() == old(self).spec_config_path(),
            final(self).spec_config() == old(self).spec_config(),
    {
        &mut self.toolset
    }

    /// Says what to do so that the prep directory exists, given what stands at its path:
    /// `true` to create it, `false` where it is there already. Something else at its path
    /// is an error.
    pub fn ensure_prep_dir(&self, exists: bool, is_dir: bool) -> (r: Result<bool, Error>)
        ensures
            !exists ==> r == Ok::<bool, Error>(true),
            exists && is_dir ==> r == Ok::<bool, Error>(false),
            exists && !is_dir ==> (r matches Err(e) && e@ == (ErrorView::NotADirectory {
                path: self.spec_prep_dir(),
            })),
    {
        if !exists {
            Ok(true)
        } else if !is_dir {
            Err(Error::NotADirectory { path: self.prep_dir.clone() })
        } else {
            Ok(false)
        }
    }
}

} // verus!
