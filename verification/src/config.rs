//! Where the application keeps its lock record: the base directory, the port
//! of the server it supervises, and the lock file that the two determine.

use vstd::prelude::*;
use vstd::string::*;
use crate::lock_file::{
    file_at, format_record, record_of, record_text, Disk, LockFile, LockOp, LockOpView,
};
use crate::path::{lemma_lock_paths_distinct, lock_path, path_for};

verus! {

/// How the base directory was arrived at.
#[derive(Clone, Copy, Debug, PartialEq, Eq, Structural)]
pub enum BaseDirSource {
    /// The override named it.
    Override,
    /// No override was given: it is the user's home directory, and the user
    /// is owed a warning.
    HomeFallback,
}

/// Why no configuration could be made.
#[derive(Clone, Copy, Debug, PartialEq, Eq, Structural)]
pub enum ConfigError {
    /// No override was given and the home directory is not known.
    HomeDirNotFound,
}

impl BaseDirSource {
    /// The warning that the user is owed, if any.
    pub open spec fn warning_of(self) -> Option<Seq<char>> {
        match self {
            BaseDirSource::Override => None,
            BaseDirSource::HomeFallback => Some(
                "Warning: THOUGHTS_CONFIG_PATH not set, using home directory as fallback"@,
            ),
        }
    }

    /// The warning that the user is owed, if any.
    pub fn warning(&self) -> (text: Option<&'static str>)
        ensures
            match text {
                Some(text) => self.warning_of() == Some(text@),
                None => self.warning_of() is None,
            },
    {
        match self {
            BaseDirSource::Override => None,
            BaseDirSource::HomeFallback => Some(
                "Warning: THOUGHTS_CONFIG_PATH not set, using home directory as fallback",
            ),
        }
    }
}

impl ConfigError {
    /// The diagnostic that goes with the error.
    pub fn message(&self) -> (text: &'static str)
        ensures
            text@ == "Could not determine home directory"@,
    {
        "Could not determine home directory"
    }
}

/// The base directory and the port of the supervised server.
#[derive(Debug)]
pub struct Config {
    config_dir: String,
    port: u16,
    source: BaseDirSource,
}

/// A `Config` as plain values.
pub ghost struct ConfigView {
    pub config_dir: Seq<char>,
    pub port: u16,
    pub source: BaseDirSource,
}

impl ConfigView {
    /// The path of the lock file: the lock file's name for the port, inside
    /// the base directory.
    pub open spec fn pid_file_path(self) -> Seq<char> {
        lock_path(self.config_dir, self.port)
    }
}

impl View for Config {
    type V = ConfigView;

    closed spec fn view(&self) -> ConfigView {
        ConfigView { config_dir: self.config_dir@, port: self.port, source: self.source }
    }
}

/// An optional string as an optional sequence of characters.
pub open spec fn option_view(s: Option<String>) -> Option<Seq<char>> {
    match s {
        Some(s) => Some(s@),
        None => None,
    }
}

/// The base directory that an override and a home directory determine: the
/// override where there is one, else the home directory, else none.
pub open spec fn base_dir_of(override_dir: Option<Seq<char>>, home: Option<Seq<char>>) -> Option<
    (Seq<char>, BaseDirSource),
> {
    match override_dir {
        Some(dir) => Some((dir, BaseDirSource::Override)),
        None => match home {
            Some(home) => Some((home, BaseDirSource::HomeFallback)),
            None => None,
        },
    }
}

/// The home directory of the current user, as `dirs::home_dir` reports it.
/// Nothing is claimed of the answer: it depends on the environment and on
/// the user database. A home directory that is not valid Unicode is reported
/// as unknown.
#[verifier::external_body]
fn home_dir() -> (home: Option<String>) {
    let home = dirs::home_dir()?;
    home.into_os_string().into_string().ok()
}

impl Config {
    /// The name of the environment variable that overrides the base
    /// directory.
    pub fn override_variable() -> (name: &'static str)
        ensures
            name@ == "THOUGHTS_CONFIG_PATH"@,
    {
        "THOUGHTS_CONFIG_PATH"
    }

    /// The configuration for `port`, given the override of the base
    /// directory, if any, and the home directory, if known.
    pub fn resolve(port: u16, override_dir: Option<String>, home: Option<String>) -> (made: Result<
        Config,
        ConfigError,
    >)
        ensures
            match base_dir_of(option_view(override_dir), option_view(home)) {
                Some((dir, source)) => made matches Ok(config) && config@ == (ConfigView {
                    config_dir: dir,
                    port,
                    source,
                }),
                None => made == Err::<Config, ConfigError>(ConfigError::HomeDirNotFound),
            },
    {
        match override_dir {
            Some(dir) => Ok(Config { config_dir: dir, port, source: BaseDirSource::Override }),
            None => match home {
                Some(home) => Ok(
                    Config { config_dir: home, port, source: BaseDirSource::HomeFallback },
                ),
                None => Err(ConfigError::HomeDirNotFound),
            },
        }
    }

    /// The configuration for `port`. The override of the base directory
    /// decides where there is one. The home directory is asked for only
    /// where there is none, and is then the base directory itself. Paths are
    /// text here: a home directory that is not valid Unicode counts as
    /// unknown.
    pub fn new(port: u16, override_dir: Option<String>) -> (made: Result<Config, ConfigError>)
        ensures
            override_dir matches Some(dir) ==> made matches Ok(config) && config@ == (ConfigView {
                config_dir: dir@,
                port,
                source: BaseDirSource::Override,
            }),
            override_dir is None ==> match made {
                Ok(config) => config@.port == port && config@.source
                    == BaseDirSource::HomeFallback,
                Err(error) => error == ConfigError::HomeDirNotFound,
            },
    {
        let home = match override_dir {
            Some(_) => None,
            None => home_dir(),
        };
        Config::resolve(port, override_dir, home)
    }

    /// The base directory.
    pub fn config_dir(&self) -> (dir: &String)
        ensures
            dir@ == self@.config_dir,
    {
        &self.config_dir
    }

    /// The port of the supervised server.
    pub fn port(&self) -> (port: u16)
        ensures
            port == self@.port,
    {
        self.port
    }

    /// How the base directory was arrived at.
    pub fn source(&self) -> (source: BaseDirSource)
        ensures
            source == self@.source,
    {
        self.source
    }

    /// The path of the lock file.
    pub fn get_pid_file_path(&self) -> (path: String)
        ensures
            path@ == self@.pid_file_path(),
    {
        path_for(self.config_dir.as_str(), self.port)
    }

    /// The change that records `pid`: the lock file gets the text of `pid`,
    /// whatever it held.
    pub fn write_pid_file(&self, pid: u32) -> (op: LockOp)
        ensures
            op@ == (LockOpView::Write { path: self@.pid_file_path(), contents: record_text(pid) }),
    {
        LockOp::Write { path: self.get_pid_file_path(), contents: format_record(pid) }
    }

    /// The identifier on record, given what was found at the lock file's
    /// path.
    pub fn read_pid_file(&self, found: &LockFile) -> (record: Option<u32>)
        ensures
            record == record_of(found@),
    {
        found.record()
    }

    /// The change that erases the record: the lock file goes.
    pub fn cleanup_pid_file(&self) -> (op: LockOp)
        ensures
            op@ == (LockOpView::Remove { path: self@.pid_file_path() }),
    {
        LockOp::Remove { path: self.get_pid_file_path() }
    }
}

/// Servers on distinct ports keep distinct records under one base directory:
/// their lock files differ, and no change to the lock file of the one touches
/// that of the other.
pub proof fn lemma_ports_keep_apart(a: ConfigView, b: ConfigView, op: LockOpView, disk: Disk)
    requires
        a.config_dir == b.config_dir,
        a.port != b.port,
        op.path() == a.pid_file_path(),
    ensures
        a.pid_file_path() != b.pid_file_path(),
        file_at(op.on(disk), b.pid_file_path()) == file_at(disk, b.pid_file_path()),
{
    lemma_lock_paths_distinct(a.config_dir, a.port, b.port);
}

} // verus!
