//! What applying a module does with each entry of its source tree.

use crate::export::export_destination;
use crate::manifest::ExportEntry;
use crate::path::{components, join_path, parent, parent_path, path_components, text_of, texts};
use crate::store::{DEFAULT_EXPORT_PATH, MODULE_FILE_PATH};
use vstd::prelude::*;
use vstd::string::StringExecFns;

verus! {

/// What an entry of a module's source tree is.
#[derive(Debug, Clone, Copy, PartialEq, Eq)]
pub enum EntryKind {
    Directory,
    File,
    /// Neither a directory nor a regular file.
    Other,
}

/// What is done for one entry of a module's source tree.
#[derive(Debug, PartialEq, Eq)]
pub enum EntryAction {
    /// Make sure that this directory exists.
    CreateDir(String),
    /// Leave the entry alone.
    Skip,
    /// Render the entry's contents and write them to `destination`, over
    /// what is there, after making sure that `folder` exists.
    Write { destination: String, folder: Option<String> },
}

/// Whether a path relative to a module's root is that of the module's
/// manifest: its only component is the manifest's file name. A file of
/// that name deeper inside the module is a file like any other.
pub open spec fn is_manifest(relative: Seq<char>) -> bool {
    path_components(relative) == seq![MODULE_FILE_PATH@]
}

/// Whether `action` is what is done for an entry of the given kind at the
/// path `relative` inside its module, which is mapped to `destination`: a
/// directory is created there, a file is rendered and written there, and
/// nothing is done for the module's manifest or for an entry that is
/// neither file nor directory.
pub open spec fn action_for(
    kind: EntryKind,
    relative: Seq<char>,
    destination: Seq<char>,
    action: EntryAction,
) -> bool {
    match kind {
        EntryKind::Directory => action matches EntryAction::CreateDir(dir) && dir@ == destination,
        EntryKind::File => if is_manifest(relative) {
            action is Skip
        } else {
            action matches EntryAction::Write { destination: file, folder } && file@ == destination
                && text_of(folder) == parent_path(destination)
        },
        EntryKind::Other => action is Skip,
    }
}

/// Tests whether a path relative to a module's root is that of the
/// module's manifest.
pub fn check_manifest(relative_path: &str) -> (found: bool)
    ensures
        found == is_manifest(relative_path@),
{
    let names = components(relative_path);
    if names.len() != 1 {
        return false;
    }
    let found = names[0] == String::from_str(MODULE_FILE_PATH);
    assert(texts(names@)[0] == names@[0]@);
    assert(found ==> texts(names@) =~= seq![MODULE_FILE_PATH@]);
    found
}

/// Decides what is done for an entry of a module's source tree, given its
/// path inside the module and the destination that the path is mapped to.
pub fn entry_action(kind: EntryKind, relative_path: &str, destination: String) -> (action:
    EntryAction)
    ensures
        action_for(kind, relative_path@, destination@, action),
{
    match kind {
        EntryKind::Directory => EntryAction::CreateDir(destination),
        EntryKind::File => {
            if check_manifest(relative_path) {
                EntryAction::Skip
            } else {
                let folder = parent(destination.as_str());
                EntryAction::Write { destination, folder }
            }
        },
        EntryKind::Other => EntryAction::Skip,
    }
}

/// The directory that a module is exported to where no override sends its
/// files elsewhere.
pub open spec fn export_root(home: Seq<char>, title: Seq<char>) -> Seq<char> {
    join_path(join_path(home, DEFAULT_EXPORT_PATH@), title)
}

/// A module without overrides keeps its structure: what is done for an
/// entry at the path `relative` inside the module is done at the same path
/// inside the module's export root. A directory is created there and a file
/// is written there, a file named like the manifest deeper inside the
/// module too; only the module's own manifest and entries that are neither
/// file nor directory have no counterpart.
pub proof fn law_plain_module_keeps_structure(
    home: Seq<char>,
    title: Seq<char>,
    kind: EntryKind,
    relative: Seq<char>,
    action: EntryAction,
)
    requires
        action_for(
            kind,
            relative,
            export_destination(home, title, Seq::<ExportEntry>::empty(), relative),
            action,
        ),
    ensures
        kind == EntryKind::Directory ==> (action matches EntryAction::CreateDir(dir) && dir@
            == join_path(export_root(home, title), relative)),
        kind == EntryKind::File && !is_manifest(relative) ==> (action matches EntryAction::Write {
            destination,
            ..
        } && destination@ == join_path(export_root(home, title), relative)),
        kind == EntryKind::Other || (kind == EntryKind::File && is_manifest(relative))
            ==> action is Skip,
{
}

} // verus!
