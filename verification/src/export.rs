//! Where a file of a module is written: under the default export root, or
//! where the first matching export override sends it.

use crate::args::ModuleArgs;
use crate::error::DSDMError;
use crate::manifest::ExportEntry;
use crate::path::{
    components, is_prefix, join, join_path, path_components, rebuild, rebuild_between, remainder,
    starts_with, texts,
};
use crate::store::{home_dir, DEFAULT_EXPORT_PATH};
use vstd::prelude::*;
use vstd::string::{StrSliceExecFns, StringExecFns};

verus! {

/// A path with its leading `~` replaced by the home directory. Only a `~`
/// that is the whole path or is followed by `/` is replaced; every other
/// path stays as it is.
pub open spec fn tilde_expanded(path: Seq<char>, home: Seq<char>) -> Seq<char> {
    if path.len() > 0 && path[0] == '~' && (path.len() == 1 || path[1] == '/') {
        home + path.skip(1)
    } else {
        path
    }
}

/// Calls `shellexpand::tilde_with_context` on `path`, with `home` as the
/// home directory. The crate replaces a leading `~` by the home directory
/// where the `~` ends the input or a `/` follows it, and returns every
/// other input unchanged. On Windows it also accepts a backslash after the
/// `~`; such inputs are left out here.
#[verifier::external_body]
fn tilde_with_home(path: &str, home: &str) -> (expanded: String)
    requires
        !(path@.len() > 1 && path@[0] == '~' && path@[1] == '\\'),
    ensures
        expanded@ == tilde_expanded(path@, home@),
{
    shellexpand::tilde_with_context(path, || Some(home)).into_owned()
}

/// Replaces a leading `~` of `path` by `home`.
pub fn expand_tilde(path: &str, home: &str) -> (expanded: String)
    ensures
        expanded@ == tilde_expanded(path@, home@),
{
    if path.unicode_len() > 1 && path.get_char(0) == '~' && path.get_char(1) == '\\' {
        String::from_str(path)
    } else {
        tilde_with_home(path, home)
    }
}

/// Where a file lands when no override matches: under the default export
/// root in the home directory, in a directory named after the module, at
/// the place it has inside the module.
pub open spec fn default_destination(home: Seq<char>, title: Seq<char>, relative: Seq<char>) -> Seq<
    char,
> {
    join_path(join_path(join_path(home, DEFAULT_EXPORT_PATH@), title), relative)
}

/// Where an override sends a file that it matches: to its target, with a
/// leading `~` expanded, followed by what the file's path has beyond the
/// override's source.
pub open spec fn override_destination(home: Seq<char>, entry: ExportEntry, relative: Seq<char>) -> Seq<
    char,
> {
    let target = tilde_expanded(entry.target@, home);
    let rest = remainder(relative, entry.source@);
    if rest.len() == 0 {
        target
    } else {
        join_path(target, rebuild(rest))
    }
}

/// The position of the first override at or after `from` whose source is a
/// prefix of `relative`, component by component.
pub open spec fn first_match(exports: Seq<ExportEntry>, relative: Seq<char>, from: int) -> Option<
    int,
>
    decreases exports.len() - from,
{
    if from < 0 || from >= exports.len() {
        None
    } else if starts_with(relative, exports[from].source@) {
        Some(from)
    } else {
        first_match(exports, relative, from + 1)
    }
}

/// The overrides of a manifest, none where it declares no list.
pub open spec fn declared(exports: Option<Vec<ExportEntry>>) -> Seq<ExportEntry> {
    match exports {
        Some(list) => list@,
        None => Seq::empty(),
    }
}

/// The destination of the file at `relative` inside the module `title`:
/// that of the first matching override, or the default one.
pub open spec fn export_destination(
    home: Seq<char>,
    title: Seq<char>,
    exports: Seq<ExportEntry>,
    relative: Seq<char>,
) -> Seq<char> {
    match first_match(exports, relative, 0) {
        Some(at) => override_destination(home, exports[at], relative),
        None => default_destination(home, title, relative),
    }
}

/// Computes the destination of the file at `relative_path` inside the
/// module `title`, for the home directory `home`.
pub fn resolve_export(
    home: &str,
    title: &str,
    exports: &Option<Vec<ExportEntry>>,
    relative_path: &str,
) -> (destination: String)
    ensures
        destination@ == export_destination(home@, title@, declared(*exports), relative_path@),
{
    if let Some(list) = exports {
        let names = components(relative_path);
        let mut at: usize = 0;
        while at < list.len()
            invariant
                at <= list.len(),
                *exports == Some(*list),
                texts(names@) == path_components(relative_path@),
                first_match(list@, relative_path@, 0) == first_match(
                    list@,
                    relative_path@,
                    at as int,
                ),
            decreases list.len() - at,
        {
            let entry = &list[at];
            let source = components(entry.source.as_str());
            if is_prefix(&source, &names) {
                let target = expand_tilde(entry.target.as_str(), home);
                if names.len() > source.len() {
                    let rest = rebuild_between(&names, source.len(), names.len());
                    return join(target.as_str(), rest.as_str());
                } else {
                    return target;
                }
            }
            at = at + 1;
        }
    }
    let root = join(home, DEFAULT_EXPORT_PATH);
    let module = join(root.as_str(), title);
    join(module.as_str(), relative_path)
}

/// Nothing is sent elsewhere by overrides that do not match: a file whose
/// path no override's source is a prefix of lands at its default
/// destination.
pub proof fn law_unmatched_is_default(
    home: Seq<char>,
    title: Seq<char>,
    exports: Seq<ExportEntry>,
    relative: Seq<char>,
)
    requires
        forall|at: int| 0 <= at < exports.len() ==> !starts_with(relative, #[trigger] exports[at].source@),
    ensures
        export_destination(home, title, exports, relative) == default_destination(
            home,
            title,
            relative,
        ),
{
    lemma_first_match(exports, relative, 0);
}

/// The first override that matches decides, whatever follows it: where the
/// override at `at` matches and none before it does, the file goes where
/// that override sends it, also where a later override matches too, with a
/// longer source or a shorter one.
pub proof fn law_first_match_wins(
    home: Seq<char>,
    title: Seq<char>,
    exports: Seq<ExportEntry>,
    relative: Seq<char>,
    at: int,
)
    requires
        0 <= at < exports.len(),
        starts_with(relative, exports[at].source@),
        forall|before: int| 0 <= before < at ==> !starts_with(relative, #[trigger] exports[before].source@),
    ensures
        export_destination(home, title, exports, relative) == override_destination(
            home,
            exports[at],
            relative,
        ),
{
    lemma_first_match(exports, relative, 0);
}

/// The first match from `from` on is a match, nothing between `from` and it
/// matches, and there is none only where nothing from `from` on matches.
pub proof fn lemma_first_match(exports: Seq<ExportEntry>, relative: Seq<char>, from: int)
    requires
        0 <= from,
    ensures
        match first_match(exports, relative, from) {
            Some(at) => {
                &&& from <= at < exports.len()
                &&& starts_with(relative, exports[at].source@)
                &&& forall|before: int|
                    from <= before < at ==> !starts_with(relative, #[trigger] exports[before].source@)
            },
            None => forall|at: int|
                from <= at < exports.len() ==> !starts_with(relative, #[trigger] exports[at].source@),
        },
    decreases exports.len() - from,
{
    if from < exports.len() && !starts_with(relative, exports[from].source@) {
        lemma_first_match(exports, relative, from + 1);
    }
}

/// The destination of the file at `relative_path` inside the module
/// `args`, given what the platform reports as the home directory: without
/// a home directory there is no destination.
pub fn export_path_of(
    home: Option<String>,
    args: &ModuleArgs,
    exports: &Option<Vec<ExportEntry>>,
    relative_path: &str,
) -> (destination: Result<String, DSDMError>)
    ensures
        match home {
            Some(dir) => destination is Ok && destination->Ok_0@ == export_destination(
                dir@,
                args.title@,
                declared(*exports),
                relative_path@,
            ),
            None => destination == Err::<String, DSDMError>(DSDMError::HomeError),
        },
{
    match home {
        Some(dir) => Ok(resolve_export(dir.as_str(), args.title.as_str(), exports, relative_path)),
        None => Err(DSDMError::HomeError),
    }
}

/// Computes the destination of the file at `relative_path` inside the
/// module `args`, for the home directory of the current user.
///
/// Fails with `HomeError`, and with nothing else, where the platform
/// reports no home directory; otherwise the destination is the one that
/// [`export_path_of`] gives for the reported directory.
pub fn get_export_path(
    args: &ModuleArgs,
    exports: &Option<Vec<ExportEntry>>,
    relative_path: &str,
) -> (destination: Result<String, DSDMError>)
    ensures
        destination matches Err(e) ==> e == DSDMError::HomeError,
        destination matches Ok(path) ==> exists|home: Seq<char>|
            path@ == #[trigger] export_destination(
                home,
                args.title@,
                declared(*exports),
                relative_path@,
            ),
{
    export_path_of(home_dir(), args, exports, relative_path)
}

} // verus!
