use vstd::prelude::*;
use vstd::string::{StrSliceExecFns, StringExecFns};
use crate::outside::home_dir;

verus! {

pub const CONFIG_DIR: &'static str = ".rocketbay";

pub const CONFIG_FILE: &'static str = "config.json";

pub const BACKUP_SUFFIX: &'static str = ".backup";

/// `name` placed under the directory `base`, with one separator between.
pub open spec fn join_path(base: Seq<char>, name: Seq<char>) -> Seq<char> {
    if base.len() == 0 || base.last() == '/' {
        base + name
    } else {
        base + seq!['/'] + name
    }
}

/// The configuration directory under the home directory `home`.
pub open spec fn config_dir_of(home: Seq<char>) -> Seq<char> {
    join_path(home, CONFIG_DIR@)
}

/// The archive file under the home directory `home`.
pub open spec fn config_file_of(home: Seq<char>) -> Seq<char> {
    join_path(config_dir_of(home), CONFIG_FILE@)
}

/// The backup beside the archive file under the home directory `home`.
pub open spec fn backup_file_of(home: Seq<char>) -> Seq<char> {
    config_file_of(home) + BACKUP_SUFFIX@
}

/// The archive file's path is never empty, whatever the home directory.
pub proof fn lemma_config_file_nonempty(home: Seq<char>)
    ensures
        config_file_of(home).len() >= CONFIG_FILE@.len() > 0,
        backup_file_of(home).len() > config_file_of(home).len(),
{
    reveal_strlit("config.json");
    reveal_strlit(".backup");
}

/// The message given when no home directory is known.
pub open spec fn no_home_message() -> Seq<char> {
    "Could not find home directory"@
}

/// Places `name` under the directory `base`.
pub fn join_dir(base: &str, name: &str) -> (r: String)
    ensures
        r@ == join_path(base@, name@),
{
    let n = base.unicode_len();
    if n == 0 || base.get_char(n - 1) == '/' {
        String::from_str(base).concat(name)
    } else {
        proof {
            reveal_strlit("/");
        }
        let r = String::from_str(base).concat("/").concat(name);
        assert(r@ =~= base@ + seq!['/'] + name@);
        r
    }
}

/// Where the configuration archive lives.
pub struct ConfigManager;

impl ConfigManager {
    /// The configuration directory under the home directory `home`.
    pub fn config_dir_in(home: &str) -> (r: String)
        ensures
            r@ == config_dir_of(home@),
    {
        join_dir(home, CONFIG_DIR)
    }

    /// The archive file under the home directory `home`.
    pub fn config_file_in(home: &str) -> (r: String)
        ensures
            r@ == config_file_of(home@),
    {
        let dir = Self::config_dir_in(home);
        join_dir(dir.as_str(), CONFIG_FILE)
    }

    /// The backup file under the home directory `home`.
    pub fn backup_file_in(home: &str) -> (r: String)
        ensures
            r@ == backup_file_of(home@),
    {
        Self::config_file_in(home).concat(BACKUP_SUFFIX)
    }

    /// The configuration directory of the current user.
    pub fn get_config_dir() -> (r: Result<String, String>)
        ensures
            r matches Ok(p) ==> exists|h: Seq<char>| p@ == config_dir_of(h),
            r matches Err(m) ==> m@ == no_home_message(),
    {
        match home_dir() {
            Some(h) => Ok(Self::config_dir_in(h.as_str())),
            None => Err(String::from_str("Could not find home directory")),
        }
    }

    /// The archive file of the current user.
    pub fn get_config_file_path() -> (r: Result<String, String>)
        ensures
            r matches Ok(p) ==> exists|h: Seq<char>| p@ == config_file_of(h),
            r matches Ok(p) ==> p@.len() > 0,
            r matches Err(m) ==> m@ == no_home_message(),
    {
        match home_dir() {
            Some(h) => {
                proof {
                    lemma_config_file_nonempty(h@);
                }
                Ok(Self::config_file_in(h.as_str()))
            },
            None => Err(String::from_str("Could not find home directory")),
        }
    }

    /// The backup file of the current user.
    pub fn get_backup_file_path() -> (r: Result<String, String>)
        ensures
            r matches Ok(p) ==> exists|h: Seq<char>| p@ == backup_file_of(h),
            r matches Err(m) ==> m@ == no_home_message(),
    {
        match home_dir() {
            Some(h) => Ok(Self::backup_file_in(h.as_str())),
            None => Err(String::from_str("Could not find home directory")),
        }
    }

    /// The archive file's location, for display.
    pub fn get_config_path_string() -> (r: Result<String, String>)
        ensures
            r matches Ok(p) ==> exists|h: Seq<char>| p@ == config_file_of(h),
            r matches Ok(p) ==> p@.len() > 0,
            r matches Err(m) ==> m@ == no_home_message(),
    {
        Self::get_config_file_path()
    }
}

} // verus!
