//! Settings of one watcher.

use vstd::prelude::*;

verus! {

/// Value of [`Config::auto_push`] where a configuration leaves it out.
pub fn default_true() -> (enabled: bool)
    ensures
        enabled,
{
    true
}

/// Settings of one watcher. Paths are held as text.
#[derive(Debug, PartialEq, Eq)]
pub struct Config {
    /// Unique name of the watcher.
    pub name: String,
    /// Where the configuration was read from, if it was read from a file.
    pub config_path: Option<String>,
    /// Directory that is watched; also the root of the repository.
    pub watch_dir: String,
    /// Quiet period, in seconds, between the last change and the commit.
    pub commit_delay_secs: u32,
    /// Whether each commit is pushed to the remote.
    pub auto_push: bool,
}

impl Clone for Config {
    fn clone(&self) -> (copy: Config)
        ensures
            copy == *self,
    {
        Config {
            name: self.name.clone(),
            config_path: match &self.config_path {
                Some(path) => Some(path.clone()),
                None => None,
            },
            watch_dir: self.watch_dir.clone(),
            commit_delay_secs: self.commit_delay_secs,
            auto_push: self.auto_push,
        }
    }
}

/// Quiet period of a new watcher, in seconds.
pub const DEFAULT_COMMIT_DELAY_SECS: u32 = 3;

/// Where the configuration of the watcher `name` lies below the directory
/// `config_dir`.
pub open spec fn watcher_config_path(config_dir: Seq<char>, name: Seq<char>) -> Seq<char> {
    config_dir + "/"@ + name + ".yml"@
}

impl Config {
    /// The settings of a new watcher `name` for the directory `watch_dir`:
    /// the default quiet period, and pushing switched on.
    pub fn new(name: &str, watch_dir: &str) -> (config: Config)
        ensures
            config.name@ == name@,
            config.config_path is None,
            config.watch_dir@ == watch_dir@,
            config.commit_delay_secs == DEFAULT_COMMIT_DELAY_SECS,
            config.auto_push,
    {
        Config {
            name: String::from_str(name),
            config_path: None,
            watch_dir: String::from_str(watch_dir),
            commit_delay_secs: DEFAULT_COMMIT_DELAY_SECS,
            auto_push: default_true(),
        }
    }

    /// The path of the configuration of the watcher `name` below the
    /// directory `config_dir`.
    pub fn get_watcher_config_path(config_dir: &str, name: &str) -> (path: String)
        ensures
            path@ == watcher_config_path(config_dir@, name@),
    {
        let mut path = String::from_str(config_dir);
        path.append("/");
        path.append(name);
        path.append(".yml");
        path
    }
}

/// The complaint that the watcher `name` has no configuration.
pub open spec fn missing_config(name: Seq<char>) -> Seq<char> {
    "Could not find config for '"@ + name + "'"@
}

/// The configuration of the watcher `name`, where `found` is what its
/// configuration file holds, and `None` where there is no such file.
pub fn get_watcher_config(name: &str, found: Option<Config>) -> (config: Result<Config, String>)
    ensures
        match found {
            Some(c) => config == Ok::<Config, String>(c),
            None => config is Err && config->Err_0@ == missing_config(name@),
        },
{
    match found {
        Some(c) => Ok(c),
        None => {
            let mut complaint = String::from_str("Could not find config for '");
            complaint.append(name);
            complaint.append("'");
            Err(complaint)
        },
    }
}

} // verus!
