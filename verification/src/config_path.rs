//! Where the configuration lives, relative to the user's home directory.

use vstd::prelude::*;
use std::path::PathBuf;

verus! {

/// `std::path::PathBuf`, a path of the file system. Nothing is known of
/// what is inside but through the functions below.
#[verifier::external_type_specification]
#[verifier::external_body]
pub struct ExPathBuf(PathBuf);

/// The path `base` with `part` joined to it, as `Path::join` joins them.
pub uninterp spec fn joined_path(base: PathBuf, part: Seq<char>) -> PathBuf;

/// The path `path` with its extension set to `extension`, as
/// `Path::with_extension` sets it.
pub uninterp spec fn path_with_extension(path: PathBuf, extension: Seq<char>) -> PathBuf;

/// `text` holds no path separator of any platform.
pub open spec fn no_separator(text: Seq<char>) -> bool {
    forall|i: int| 0 <= i < text.len() ==> text[i] != '/' && text[i] != '\\'
}

/// The directory of the configuration under the home directory `home`.
pub open spec fn config_dir(home: PathBuf) -> PathBuf {
    joined_path(joined_path(home, ".config"@), "petcli"@)
}

/// The file of the configuration called `name` under the home directory
/// `home`; the main configuration file where no name is given.
pub open spec fn config_file(home: PathBuf, name: Option<Seq<char>>) -> PathBuf {
    match name {
        Some(n) => path_with_extension(joined_path(config_dir(home), n), "toml"@),
        None => joined_path(config_dir(home), "config.toml"@),
    }
}

/// `Path::join`: the path that `part` names when read from `base`. The
/// contract claims only that the outcome depends on the two alone.
#[verifier::external_body]
fn join_path(base: &PathBuf, part: &str) -> (r: PathBuf)
    ensures
        r == joined_path(*base, part@),
{
    base.join(part)
}

/// `Path::with_extension`: the path with its extension replaced. It
/// panics where the extension holds a path separator, so such extensions are
/// left out. The contract claims only that the outcome depends on the two
/// arguments alone.
#[verifier::external_body]
fn set_extension(path: &PathBuf, extension: &str) -> (r: PathBuf)
    requires
        no_separator(extension@),
    ensures
        r == path_with_extension(*path, extension@),
{
    path.with_extension(extension)
}

/// The directory of the configuration under the home directory `home`.
pub fn get_config_dir(home: &PathBuf) -> (dir: PathBuf)
    ensures
        dir == config_dir(*home),
{
    let hidden: PathBuf = join_path(home, ".config");
    join_path(&hidden, "petcli")
}

/// The file of the configuration called `name`, with the extension of a
/// configuration file; the main configuration file where no name is given.
pub fn get_config_file_path(home: &PathBuf, name: Option<&str>) -> (file: PathBuf)
    ensures
        file == config_file(
            *home,
            match name {
                Some(n) => Some(n@),
                None => None,
            },
        ),
{
    let dir: PathBuf = get_config_dir(home);
    match name {
        Some(n) => {
            let named: PathBuf = join_path(&dir, n);
            proof {
                reveal_strlit("toml");
            }
            set_extension(&named, "toml")
        },
        None => join_path(&dir, "config.toml"),
    }
}

} // verus!
