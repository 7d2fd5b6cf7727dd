//! Where the tool keeps its files.

use vstd::prelude::*;
use vstd::string::*;

verus! {

/// The name of the configuration file, in the root of the repository.
pub const CONFIG_FILE: &'static str = "config.toml";

/// The directory of the tool's own files.
pub const CONFIG_DIR: &'static str = ".dit";

/// The name of the file that holds the key ID.
pub const KEYID: &'static str = "keyid";

/// The path of the configuration file of the repository at `git_dir`.
pub fn config_path(git_dir: &str) -> (path: String)
    ensures
        path@ == git_dir@ + "/"@ + "config.toml"@,
{
    let mut path = String::from_str(git_dir);
    path.append("/");
    path.append("config.toml");
    path
}

/// The path of the tool's directory in the repository at `git_dir`.
pub fn config_dir(git_dir: &str) -> (path: String)
    ensures
        path@ == git_dir@ + "/"@ + ".dit"@,
{
    let mut path = String::from_str(git_dir);
    path.append("/");
    path.append(".dit");
    path
}

/// The path of the file `name` in the tool's directory.
pub fn config_file(git_dir: &str, name: &str) -> (path: String)
    ensures
        path@ == git_dir@ + "/"@ + ".dit"@ + "/"@ + name@,
{
    let mut path = config_dir(git_dir);
    path.append("/");
    path.append(name);
    path
}

/// The path of the file that holds the key ID.
pub fn keyid_path(git_dir: &str) -> (path: String)
    ensures
        path@ == git_dir@ + "/"@ + ".dit"@ + "/"@ + "keyid"@,
{
    config_file(git_dir, "keyid")
}

/// Whether `keyid` can be a key ID: eight octets.
pub fn is_keyid(keyid: &[u8]) -> (yes: bool)
    ensures
        yes == (keyid@.len() == 8),
{
    keyid.len() == 8
}

} // verus!
