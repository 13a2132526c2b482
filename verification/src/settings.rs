//! The configuration and the place of its file.

use vstd::prelude::*;
use vstd::string::{StrSliceExecFns, StringExecFns};
use crate::error::{outcome_view, Error, ErrorView, Failure, FailureView};

verus! {

/// The directory of this program below `.config`.
pub const CONFIG_DIR_NAME: &'static str = "achievement_hunter";

/// The name of the configuration file.
pub const CONFIG_FILENAME: &'static str = "config.toml";

/// The credentials for the game-data service.
#[derive(Debug, PartialEq, Eq)]
pub struct Steam {
    pub api_key: String,
    pub user_id: String,
}

/// The mathematical content of a [`Steam`].
pub struct SteamView {
    pub api_key: Seq<char>,
    pub user_id: Seq<char>,
}

impl View for Steam {
    type V = SteamView;

    open spec fn view(&self) -> SteamView {
        SteamView { api_key: self.api_key@, user_id: self.user_id@ }
    }
}

/// The whole configuration.
#[derive(Debug, PartialEq, Eq)]
pub struct Settings {
    pub steam: Steam,
}

/// The mathematical content of a [`Settings`].
pub struct SettingsView {
    pub steam: SteamView,
}

impl View for Settings {
    type V = SettingsView;

    open spec fn view(&self) -> SettingsView {
        SettingsView { steam: self.steam@ }
    }
}

/// The path `name` below the directory `base`: `name` itself where it
/// starts at the root, else `base` and `name` with one separator between
/// them, which an empty `base` or one that ends in a separator does not
/// need.
pub open spec fn joined(base: Seq<char>, name: Seq<char>) -> Seq<char> {
    if name.len() > 0 && name[0] == '/' {
        name
    } else if base.len() == 0 || base.last() == '/' {
        base + name
    } else {
        base.push('/') + name
    }
}

/// The path of the configuration file below the home directory `home`.
pub open spec fn config_filepath(home: Seq<char>) -> Seq<char> {
    joined(joined(joined(home, ".config"@), CONFIG_DIR_NAME@), CONFIG_FILENAME@)
}

/// Where the configuration file is, for what the environment says of the
/// home directory: its path, or why there is none.
pub open spec fn config_filepath_for(home_dir: Result<Seq<char>, Seq<char>>) -> Result<
    Seq<char>,
    ErrorView,
> {
    match home_dir {
        Ok(home) => Ok(config_filepath(home)),
        Err(detail) => Err(ErrorView::new(FailureView::Config { detail })),
    }
}

/// The path `name` below the directory `base`.
pub fn join(base: String, name: &str) -> (path: String)
    ensures
        path@ == joined(base@, name@),
{
    let name_len = name.unicode_len();
    if name_len > 0 && name.get_char(0) == '/' {
        return String::from_str(name);
    }
    let base_len = base.as_str().unicode_len();
    let mut path = base;
    if base_len > 0 && path.as_str().get_char(base_len - 1) != '/' {
        proof {
            reveal_strlit("/");
        }
        path.append("/");
        assert(path@ =~= base@.push('/'));
    }
    path.append(name);
    path
}

/// The path of the configuration file, `config.toml` in the directory
/// `achievement_hunter` below `.config` in the home directory. `home_dir`
/// is what the environment says of the home directory: its path, or why
/// it has none, which then is the failure.
pub fn get_config_filepath(home_dir: Result<String, String>) -> (path: Result<String, Error>)
    ensures
        outcome_view(path) == config_filepath_for(outcome_view(home_dir)),
{
    match home_dir {
        Ok(home) => {
            let path = join(join(join(home, ".config"), CONFIG_DIR_NAME), CONFIG_FILENAME);
            Ok(path)
        },
        Err(detail) => Err(Error::new(Failure::Config { detail })),
    }
}

/// The path of the configuration file on Windows, where it lies below the
/// program data of the machine and the separator is the backslash.
pub open spec fn windows_config_filepath() -> Seq<char> {
    "C:\\ProgramData\\achievement_hunter"@ + "\\.config\\"@ + CONFIG_DIR_NAME@ + "\\"@
        + CONFIG_FILENAME@
}

/// The path of the configuration file on Windows.
pub fn get_windows_config_filepath() -> (path: String)
    ensures
        path@ == windows_config_filepath(),
{
    let mut path = String::from_str("C:\\ProgramData\\achievement_hunter");
    path.append("\\.config\\");
    path.append(CONFIG_DIR_NAME);
    path.append("\\");
    path.append(CONFIG_FILENAME);
    path
}

} // verus!
