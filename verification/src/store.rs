//! Where the module store and the modules in it lie on disk.

use crate::args::ModuleArgs;
use crate::error::DSDMError;
use crate::path::{join, join_path};
use vstd::prelude::*;

verus! {

/// The directory of the module store, under the home directory.
pub const DSDM_CONFIG_PATH: &'static str = ".dsdm.d";

/// The name of a module's manifest file.
pub const MODULE_FILE_PATH: &'static str = "mod.yaml";

/// The name of the file of global defaults, in the store's root.
pub const GLOBAL_FILE_PATH: &'static str = "global.yaml";

/// The directory under the home directory that exports go to by default.
pub const DEFAULT_EXPORT_PATH: &'static str = ".config";

/// The root of the module store for a given home directory.
pub open spec fn store_root(home: Seq<char>) -> Seq<char> {
    join_path(home, DSDM_CONFIG_PATH@)
}

/// The directory of a module in a given store: the subdirectory, if
/// there is one, lies between the store's root and the module's title.
pub open spec fn module_dir(root: Seq<char>, args: ModuleArgs) -> Seq<char> {
    match args.subdir {
        Some(sub) => join_path(join_path(root, sub@), args.title@),
        None => join_path(root, args.title@),
    }
}

/// The root of the module store under `home`.
pub fn store_root_in(home: &str) -> (root: String)
    ensures
        root@ == store_root(home@),
{
    join(home, DSDM_CONFIG_PATH)
}

/// The directory of the module `args` in the store at `root`.
pub fn module_dir_in(root: &str, args: &ModuleArgs) -> (dir: String)
    ensures
        dir@ == module_dir(root@, *args),
{
    match &args.subdir {
        Some(sub) => {
            let parent = join(root, sub.as_str());
            join(parent.as_str(), args.title.as_str())
        },
        None => join(root, args.title.as_str()),
    }
}

/// The manifest file of a module that lies in `dir`.
pub open spec fn manifest_file(dir: Seq<char>) -> Seq<char> {
    join_path(dir, MODULE_FILE_PATH@)
}

/// The file of global defaults of the store at `root`.
pub open spec fn global_file(root: Seq<char>) -> Seq<char> {
    join_path(root, GLOBAL_FILE_PATH@)
}

/// The manifest file of the module in `dir`.
pub fn manifest_file_in(dir: &str) -> (file: String)
    ensures
        file@ == manifest_file(dir@),
{
    join(dir, MODULE_FILE_PATH)
}

/// The file of global defaults of the store at `root`.
pub fn global_file_in(root: &str) -> (file: String)
    ensures
        file@ == global_file(root@),
{
    join(root, GLOBAL_FILE_PATH)
}

/// Asks `dirs_next::home_dir` for the user's home directory and hands it
/// back as text, with whatever is not valid UTF-8 in it replaced. Nothing
/// is claimed of the answer: it depends on the environment of the process,
/// and may be absent.
#[verifier::external_body]
pub(crate) fn home_dir() -> (home: Option<String>) {
    dirs_next::home_dir().map(|dir| dir.to_string_lossy().into_owned())
}

/// The root of the module store, given what the platform reports as the
/// home directory: without a home directory there is no store.
pub fn store_root_of(home: Option<String>) -> (root: Result<String, DSDMError>)
    ensures
        match home {
            Some(dir) => root is Ok && root->Ok_0@ == store_root(dir@),
            None => root == Err::<String, DSDMError>(DSDMError::HomeError),
        },
{
    match home {
        Some(dir) => Ok(store_root_in(dir.as_str())),
        None => Err(DSDMError::HomeError),
    }
}

/// The root of the module store of the current user.
///
/// Fails with `HomeError`, and with nothing else, where the platform
/// reports no home directory; otherwise the root lies under the reported
/// directory, as [`store_root_of`] says.
pub fn craft_path() -> (root: Result<String, DSDMError>)
    ensures
        root matches Err(e) ==> e == DSDMError::HomeError,
        root matches Ok(dir) ==> exists|home: Seq<char>| dir@ == #[trigger] store_root(home),
{
    store_root_of(home_dir())
}

/// The directory of the module `args` in the store of the current user.
///
/// Fails as [`craft_path`] does; otherwise the directory is that of
/// [`module_dir`] under the store's root.
pub fn craft_path_module(args: &ModuleArgs) -> (dir: Result<String, DSDMError>)
    ensures
        dir matches Err(e) ==> e == DSDMError::HomeError,
        dir matches Ok(found) ==> exists|home: Seq<char>|
            found@ == module_dir(#[trigger] store_root(home), *args),
{
    match craft_path() {
        Ok(root) => Ok(module_dir_in(root.as_str(), args)),
        Err(e) => Err(e),
    }
}

/// A module exists where its directory is there and holds a manifest file.
pub fn module_exists(dir_found: bool, manifest_found: bool) -> (exists: bool)
    ensures
        exists == (dir_found && manifest_found),
{
    dir_found && manifest_found
}

} // verus!
