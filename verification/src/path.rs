//! Paths as text: joining, splitting into components, and prefix tests.
//!
//! A path is a string whose components are separated by `/`. Two paths are
//! compared component by component, so `a//b/./c` and `a/b/c` have the same
//! components, while `ab` is no prefix of `abc`.

use vstd::prelude::*;
use vstd::string::{StrSliceExecFns, StringExecFns};

verus! {

/// A path is absolute when it begins with the separator.
pub open spec fn is_absolute(path: Seq<char>) -> bool {
    path.len() > 0 && path[0] == '/'
}

/// `rest` adjoined to `base`: an absolute `rest` replaces `base`; otherwise
/// `rest` follows `base`, with one separator between them unless `base` is
/// empty or already ends in one.
pub open spec fn join_path(base: Seq<char>, rest: Seq<char>) -> Seq<char> {
    if is_absolute(rest) {
        rest
    } else if base.len() == 0 || base.last() == '/' {
        base + rest
    } else {
        base + seq!['/'] + rest
    }
}

/// Adjoins `rest` to `base`.
pub fn join(base: &str, rest: &str) -> (joined: String)
    ensures
        joined@ == join_path(base@, rest@),
{
    let rest_len = rest.unicode_len();
    if rest_len > 0 && rest.get_char(0) == '/' {
        return String::from_str(rest);
    }
    let base_len = base.unicode_len();
    let mut joined = String::from_str(base);
    if base_len > 0 && base.get_char(base_len - 1) != '/' {
        proof {
            reveal_strlit("/");
        }
        joined.append("/");
    }
    joined.append(rest);
    joined
}

/// The pieces of a path between its separators, empty ones included: a path
/// with `k` separators has `k + 1` pieces.
pub open spec fn split(path: Seq<char>) -> Seq<Seq<char>>
    decreases path.len(),
{
    if path.len() == 0 {
        seq![Seq::empty()]
    } else {
        let before = split(path.drop_last());
        if path.last() == '/' {
            before.push(Seq::empty())
        } else {
            before.drop_last().push(before.last().push(path.last()))
        }
    }
}

/// Whether the piece at `index` counts as a component: empty pieces never
/// do, and a `.` does only where it opens the path.
pub open spec fn keeps(piece: Seq<char>, index: int) -> bool {
    piece.len() > 0 && (index == 0 || piece != seq!['.'])
}

/// The pieces that count as components, in order.
pub open spec fn kept(pieces: Seq<Seq<char>>) -> Seq<Seq<char>>
    decreases pieces.len(),
{
    if pieces.len() == 0 {
        Seq::empty()
    } else {
        let before = kept(pieces.drop_last());
        if keeps(pieces.last(), pieces.len() - 1) {
            before.push(pieces.last())
        } else {
            before
        }
    }
}

/// The components of a path: the root `/` first if the path is absolute,
/// then every piece that counts.
pub open spec fn path_components(path: Seq<char>) -> Seq<Seq<char>> {
    let root = if is_absolute(path) {
        seq![seq!['/']]
    } else {
        Seq::empty()
    };
    root + kept(split(path))
}

/// The text of each string of a sequence.
pub open spec fn texts(names: Seq<String>) -> Seq<Seq<char>> {
    names.map_values(|name: String| name@)
}

/// Splits a path into its components.
pub fn components(path: &str) -> (names: Vec<String>)
    ensures
        texts(names@) == path_components(path@),
{
    let n = path.unicode_len();
    let mut names: Vec<String> = Vec::new();
    if n > 0 && path.get_char(0) == '/' {
        proof {
            reveal_strlit("/");
        }
        assert("/"@ =~= seq!['/']);
        names.push(String::from_str("/"));
    }
    let ghost root = texts(names@);
    let ghost mut done: Seq<Seq<char>> = Seq::empty();
    let mut start: usize = 0;
    let mut i: usize = 0;
    assert(path@.take(0) =~= Seq::empty());
    while i < n
        invariant
            n == path@.len(),
            start <= i <= n,
            split(path@.take(i as int)) == done.push(path@.subrange(start as int, i as int)),
            (start == 0) == (done.len() == 0),
            texts(names@) == root + kept(done),
        decreases n - i,
    {
        let ghost piece = path@.subrange(start as int, i as int);
        let ghost next = path@.take(i + 1);
        assert(next.drop_last() =~= path@.take(i as int));
        assert(done.push(piece).drop_last() =~= done);
        if path.get_char(i) == '/' {
            let keep = i > start && !(start != 0 && i - start == 1 && path.get_char(start) == '.');
            assert(piece =~= seq!['.'] <==> (piece.len() == 1 && piece[0] == '.'));
            if keep {
                let name = String::from_str(path.substring_char(start, i));
                let ghost before = names@;
                names.push(name);
                assert(texts(names@) =~= texts(before).push(piece));
            }
            proof {
                done = done.push(piece);
            }
            start = i + 1;
            assert(path@.subrange(start as int, i + 1) =~= Seq::empty());
        } else {
            assert(piece.push(path@[i as int]) =~= path@.subrange(start as int, i + 1));
        }
        i = i + 1;
    }
    let ghost piece = path@.subrange(start as int, n as int);
    assert(path@.take(n as int) =~= path@);
    let keep = n > start && !(start != 0 && n - start == 1 && path.get_char(start) == '.');
    assert(piece =~= seq!['.'] <==> (piece.len() == 1 && piece[0] == '.'));
    assert(done.push(piece).drop_last() =~= done);
    if keep {
        let name = String::from_str(path.substring_char(start, n));
        let ghost before = names@;
        names.push(name);
        assert(texts(names@) =~= texts(before).push(piece));
    }
    names
}

/// Whether `base` is a prefix of `path`, component by component.
pub open spec fn starts_with(path: Seq<char>, base: Seq<char>) -> bool {
    path_components(base).is_prefix_of(path_components(path))
}

/// The components of `path` that follow those of `base`.
pub open spec fn remainder(path: Seq<char>, base: Seq<char>) -> Seq<Seq<char>> {
    path_components(path).skip(path_components(base).len() as int)
}

/// The path made by adjoining the given components one after another.
pub open spec fn rebuild(names: Seq<Seq<char>>) -> Seq<char>
    decreases names.len(),
{
    if names.len() == 0 {
        Seq::empty()
    } else {
        join_path(rebuild(names.drop_last()), names.last())
    }
}

/// Whether the strings of `prefix` open the strings of `names`, one for one.
pub fn is_prefix(prefix: &Vec<String>, names: &Vec<String>) -> (found: bool)
    ensures
        found == texts(prefix@).is_prefix_of(texts(names@)),
{
    if prefix.len() > names.len() {
        return false;
    }
    let mut k: usize = 0;
    while k < prefix.len()
        invariant
            k <= prefix.len() <= names.len(),
            forall|j: int| 0 <= j < k ==> prefix@[j]@ == names@[j]@,
        decreases prefix.len() - k,
    {
        if prefix[k] != names[k] {
            assert(texts(prefix@)[k as int] != texts(names@).subrange(
                0,
                texts(prefix@).len() as int,
            )[k as int]);
            return false;
        }
        k = k + 1;
    }
    true
}

/// Tests whether `base` is a prefix of `path`, component by component.
pub fn path_starts_with(path: &str, base: &str) -> (found: bool)
    ensures
        found == starts_with(path@, base@),
{
    let names = components(path);
    let prefix = components(base);
    is_prefix(&prefix, &names)
}

/// Adjoins the components of `names` from position `from` up to `to` into
/// one path.
pub fn rebuild_between(names: &Vec<String>, from: usize, to: usize) -> (path: String)
    requires
        from <= to <= names.len(),
    ensures
        path@ == rebuild(texts(names@).subrange(from as int, to as int)),
{
    let mut path = String::new();
    let mut k: usize = from;
    while k < to
        invariant
            from <= k <= to <= names.len(),
            path@ == rebuild(texts(names@).subrange(from as int, k as int)),
        decreases to - k,
    {
        let ghost upto = texts(names@).subrange(from as int, k + 1);
        assert(upto.drop_last() =~= texts(names@).subrange(from as int, k as int));
        path = join(path.as_str(), names[k].as_str());
        k = k + 1;
    }
    path
}

/// The directory a path lies in: the path made of all its components but
/// the last. A path without components has none, nor has the root.
pub open spec fn parent_path(path: Seq<char>) -> Option<Seq<char>> {
    let names = path_components(path);
    if names.len() == 0 || (names.len() == 1 && is_absolute(path)) {
        None
    } else {
        Some(rebuild(names.drop_last()))
    }
}

/// The text of a string that may be absent.
pub open spec fn text_of(name: Option<String>) -> Option<Seq<char>> {
    match name {
        Some(text) => Some(text@),
        None => None,
    }
}

/// Finds the directory a path lies in.
pub fn parent(path: &str) -> (folder: Option<String>)
    ensures
        text_of(folder) == parent_path(path@),
{
    let names = components(path);
    let absolute = path.unicode_len() > 0 && path.get_char(0) == '/';
    if names.len() == 0 || (names.len() == 1 && absolute) {
        None
    } else {
        Some(rebuild_between(&names, 0, names.len() - 1))
    }
}

} // verus!
