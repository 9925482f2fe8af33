//! Process configuration: where notes are read from and saved to, and whose
//! messages are captured.

use crate::decimal::{parse_u64, parsed_u64};
use crate::text::option_text;
use vstd::prelude::*;
use vstd::string::*;

verus! {

/// The settings every component is handed explicitly.
///
/// Directories are kept as text, exactly as they were configured; a target
/// path is formed by appending to `save_dir`.
#[derive(Clone, Debug, PartialEq, Eq)]
pub struct CapturebotConfig {
    /// The only sender whose messages are captured.
    pub user_id: u64,
    /// The staging root, scanned first at start-up.
    pub read_dir: String,
    /// The canonical root: scanned second, and where new notes are written.
    pub save_dir: String,
    /// Where a batch export lies, if one was configured.
    pub backup_json: Option<String>,
}

/// The sender identity used by configurations made for tests.
pub const TESTING_USER_ID: u64 = 12345;

/// The save root of the test configuration named `test_name`.
pub open spec fn testing_save_dir(test_name: Seq<char>) -> Seq<char> {
    "/tmp/test_out/"@ + test_name + "/"@
}

/// The staging root of the test configuration named `test_name`.
pub open spec fn testing_read_dir(test_name: Seq<char>) -> Seq<char> {
    "/tmp/test_out/read/"@ + test_name + "/"@
}

/// The save root where none is configured.
pub const DEFAULT_SAVE_DIR: &'static str = "./out/";

/// Why no configuration could be made. Either way the process must not
/// start.
#[derive(Clone, Copy, Debug, PartialEq, Eq, Structural)]
pub enum ConfigError {
    /// No sender is configured.
    MissingUserId,
    /// The sender configured is not a number.
    InvalidUserId,
}

impl ConfigError {
    /// The error in words.
    pub fn message(&self) -> (words: String)
        ensures
            words@ == match *self {
                ConfigError::MissingUserId => "Specify user ID"@,
                ConfigError::InvalidUserId => "User ID should be an integer"@,
            },
    {
        match self {
            ConfigError::MissingUserId => String::from_str("Specify user ID"),
            ConfigError::InvalidUserId => String::from_str("User ID should be an integer"),
        }
    }
}

/// The save root for a setting: the setting, or the default.
pub open spec fn save_dir_for(setting: Option<Seq<char>>) -> Seq<char> {
    match setting {
        Some(dir) => dir,
        None => DEFAULT_SAVE_DIR@,
    }
}

/// The staging root for a setting: the setting, or the save root.
pub open spec fn read_dir_for(setting: Option<Seq<char>>, save_dir: Seq<char>) -> Seq<char> {
    match setting {
        Some(dir) => dir,
        None => save_dir,
    }
}

impl CapturebotConfig {
    /// The configuration for the settings found: the sender is required and
    /// must be a number; the save root defaults to `DEFAULT_SAVE_DIR`, the
    /// staging root to the save root.
    pub fn from_settings(
        user_id: Option<&str>,
        save_dir: Option<String>,
        read_dir: Option<String>,
        backup_json: Option<String>,
    ) -> (made: Result<Self, ConfigError>)
        ensures
            match user_id {
                None => made == Err::<Self, ConfigError>(ConfigError::MissingUserId),
                Some(raw) => match parsed_u64(raw@) {
                    None => made == Err::<Self, ConfigError>(ConfigError::InvalidUserId),
                    Some(id) => made matches Ok(config) && config.user_id == id && config.save_dir@
                        == save_dir_for(option_text(save_dir)) && config.read_dir@ == read_dir_for(
                        option_text(read_dir),
                        save_dir_for(option_text(save_dir)),
                    ) && config.backup_json == backup_json,
                },
            },
    {
        let user_id = match user_id {
            Some(raw) => match parse_u64(raw) {
                Some(id) => id,
                None => {
                    return Err(ConfigError::InvalidUserId);
                },
            },
            None => {
                return Err(ConfigError::MissingUserId);
            },
        };
        let save_dir = match save_dir {
            Some(dir) => dir,
            None => String::from_str(DEFAULT_SAVE_DIR),
        };
        let read_dir = match read_dir {
            Some(dir) => dir,
            None => save_dir.clone(),
        };
        Ok(CapturebotConfig { user_id, read_dir, save_dir, backup_json })
    }

    /// A configuration whose directories are private to the test `test_name`.
    pub fn for_testing(test_name: &str) -> (config: Self)
        ensures
            config.user_id == TESTING_USER_ID,
            config.save_dir@ == testing_save_dir(test_name@),
            config.read_dir@ == testing_read_dir(test_name@),
            config.backup_json matches Some(p) && p@ == "./test_backup.json"@,
    {
        let save_dir = String::from_str("/tmp/test_out/").concat(test_name).concat("/");
        let read_dir = String::from_str("/tmp/test_out/read/").concat(test_name).concat("/");
        CapturebotConfig {
            user_id: TESTING_USER_ID,
            read_dir,
            save_dir,
            backup_json: Some(String::from_str("./test_backup.json")),
        }
    }
}

} // verus!
