//! Where the configuration file lives, as path components under the home directory.
use vstd::prelude::*;

use crate::pool::entries;

verus! {

/// The systems whose configuration directories differ.
#[derive(Debug, Clone, Copy, PartialEq, Eq, Structural)]
pub enum Platform {
    /// Linux and macOS: a hidden `.config` directory under the home directory.
    Unix,
    /// Windows: a directory of the tool's own right under the home directory.
    Windows,
}

/// The components of the configuration directory below the home directory.
pub open spec fn config_dir_parts(platform: Platform) -> Seq<Seq<char>> {
    match platform {
        Platform::Unix => seq![".config"@, "wheel-picker"@],
        Platform::Windows => seq!["wheel-picker"@],
    }
}

/// The name of the configuration file.
pub open spec fn config_file_name() -> Seq<char> {
    "config.ron"@
}

/// The configuration directory: the components of `home`, then those of the
/// tool's directory.
pub fn get_config_dir(home: Vec<String>, platform: Platform) -> (r: Vec<String>)
    ensures
        entries(r@) == entries(home@) + config_dir_parts(platform),
{
    let mut r = home;
    if platform == Platform::Unix {
        r.push(".config".to_owned());
    }
    r.push("wheel-picker".to_owned());
    assert(entries(r@) =~= entries(home@) + config_dir_parts(platform));
    r
}

/// The configuration file: its directory, then the file's name.
pub fn get_config_path(home: Vec<String>, platform: Platform) -> (r: Vec<String>)
    ensures
        entries(r@) == entries(home@) + config_dir_parts(platform) + seq![config_file_name()],
{
    let mut r = get_config_dir(home, platform);
    let ghost dir = r@;
    r.push("config.ron".to_owned());
    assert(entries(r@) =~= entries(dir) + seq![config_file_name()]);
    r
}

} // verus!
