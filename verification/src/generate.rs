//! Creating, reading and destroying modules: what is checked before
//! anything is touched on disk, and what is then to be done.

use crate::args::ModuleArgs;
use crate::error::DSDMError;
use crate::store::{
    global_file, global_file_in, manifest_file, manifest_file_in, module_dir, module_dir_in,
};
use vstd::prelude::*;
use vstd::string::StringExecFns;

verus! {

/// A store to set up: its directory, and the file of global defaults to
/// write into it.
#[derive(Debug, PartialEq, Eq)]
pub struct StoreSetup {
    pub dir: String,
    pub global_file: String,
}

/// A module to set up: its directory, and the manifest file to write into it.
#[derive(Debug, PartialEq, Eq)]
pub struct ModuleFiles {
    pub dir: String,
    pub manifest: String,
}

/// A module to destroy, once the user agrees: the question to ask, and the
/// directory to remove.
#[derive(Debug, PartialEq, Eq)]
pub struct DeleteRequest {
    pub prompt: String,
    pub target: String,
}

/// What came of asking the user for confirmation.
#[derive(Debug, Clone, Copy, PartialEq, Eq)]
pub enum Answer {
    Yes,
    No,
    /// The question could not be asked or answered.
    Failed,
}

/// What follows from the user's answer.
#[derive(Debug, PartialEq, Eq)]
pub enum Removal {
    /// Remove this directory and all that is in it.
    Remove(String),
    /// Leave everything as it is and end successfully.
    Quit,
}

/// The store is set up only where it is not there yet.
pub fn config_directory(root: &str, store_found: bool) -> (setup: Option<StoreSetup>)
    ensures
        store_found ==> setup is None,
        !store_found ==> (setup matches Some(store) && store.dir@ == root@ && store.global_file@
            == global_file(root@)),
{
    if store_found {
        None
    } else {
        Some(StoreSetup { dir: String::from_str(root), global_file: global_file_in(root) })
    }
}

/// The files of a new module in the store at `root`. A module that exists
/// already is not created again.
pub fn module(root: &str, args: &ModuleArgs, exists: bool) -> (files: Result<
    ModuleFiles,
    DSDMError,
>)
    ensures
        exists ==> files == Err::<ModuleFiles, DSDMError>(DSDMError::ModuleExists),
        !exists ==> (files matches Ok(found) && found.dir@ == module_dir(root@, *args)
            && found.manifest@ == manifest_file(found.dir@)),
{
    if exists {
        return Err(DSDMError::ModuleExists);
    }
    let dir = module_dir_in(root, args);
    let manifest = manifest_file_in(dir.as_str());
    Ok(ModuleFiles { dir, manifest })
}

/// The manifest file to read for the module `args` in the store at `root`.
/// A module that does not exist cannot be read.
pub fn read(root: &str, args: &ModuleArgs, exists: bool) -> (manifest: Result<String, DSDMError>)
    ensures
        !exists ==> manifest == Err::<String, DSDMError>(DSDMError::NotExists),
        exists ==> (manifest matches Ok(file) && file@ == manifest_file(
            module_dir(root@, *args),
        )),
{
    if !exists {
        return Err(DSDMError::NotExists);
    }
    let dir = module_dir_in(root, args);
    Ok(manifest_file_in(dir.as_str()))
}

/// The text of the failure to create the directory `path`, for the reason
/// `cause`.
pub open spec fn creation_failure(path: Seq<char>, cause: Seq<char>) -> Seq<char> {
    "Failed to create "@ + path + ": "@ + cause
}

/// The failure to report where the directory `path` could not be created.
pub fn dir_error(path: &str, cause: &str) -> (error: DSDMError)
    ensures
        error matches DSDMError::DirError(text) && text@ == creation_failure(path@, cause@),
{
    let mut text = String::from_str("Failed to create ");
    text.append(path);
    text.append(": ");
    text.append(cause);
    DSDMError::DirError(text)
}

/// The question asked before the module `title` is destroyed.
pub open spec fn delete_prompt(title: Seq<char>) -> Seq<char> {
    "Delete module "@ + title + "?"@
}

/// Prepares the destruction of the module `args` in the store at `root`.
///
/// Where nothing stands in the way, the user is to be asked, and the
/// directory to remove is the module's own.
pub fn delete_module(root: &str, args: &ModuleArgs, store_found: bool, exists: bool) -> (request:
    Result<DeleteRequest, DSDMError>)
    ensures
        !store_found ==> (request matches Err(DSDMError::DirError(text)) && text@
            == "Config directory doesn't exist."@),
        store_found && !exists ==> request == Err::<DeleteRequest, DSDMError>(DSDMError::NotExists),
        store_found && exists ==> (request matches Ok(asked) && asked.prompt@ == delete_prompt(
            args.title@,
        ) && asked.target@ == module_dir(root@, *args)),
{
    if !store_found {
        return Err(DSDMError::DirError(String::from_str("Config directory doesn't exist.")));
    }
    if !exists {
        return Err(DSDMError::NotExists);
    }
    let target = module_dir_in(root, args);
    let mut prompt = String::from_str("Delete module ");
    prompt.append(args.title.as_str());
    prompt.append("?");
    Ok(DeleteRequest { prompt, target })
}

/// Decides what the user's answer means for a prepared destruction.
pub fn confirm_delete(request: DeleteRequest, answer: Answer) -> (removal: Result<
    Removal,
    DSDMError,
>)
    ensures
        removal == match answer {
            Answer::Yes => Ok::<Removal, DSDMError>(Removal::Remove(request.target)),
            Answer::No => Ok(Removal::Quit),
            Answer::Failed => Err(DSDMError::QuestionError),
        },
{
    match answer {
        Answer::Yes => Ok(Removal::Remove(request.target)),
        Answer::No => Ok(Removal::Quit),
        Answer::Failed => Err(DSDMError::QuestionError),
    }
}

} // verus!
