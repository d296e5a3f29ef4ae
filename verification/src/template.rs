//! The variable tree handed to the template renderer, and how it is built
//! from a module's own variables and the global defaults.

use crate::error::DSDMError;
use crate::manifest::YamlValue;
use crate::path::texts;
use vstd::prelude::*;
use vstd::string::{StrSliceExecFns, StringExecFns};

verus! {

/// What a template context means: a string, or named subtrees.
#[verifier::ext_equal]
pub enum ContextTree {
    Leaf(Seq<char>),
    Node(Map<Seq<char>, ContextTree>),
}

/// The variables a template can refer to: a string, or a mapping from names
/// to further contexts. A mapping is held as a list of entries in which no
/// name occurs twice (see [`TemplateContext::wf`]).
#[derive(Debug, PartialEq, Eq)]
pub enum TemplateContext {
    Value(String),
    Nested(Vec<(String, TemplateContext)>),
}

/// The mapping that the first `n` entries stand for. Where a name occurs
/// more than once, the later entry counts.
pub open spec fn entries_tree(entries: Seq<(String, TemplateContext)>, n: nat) -> Map<
    Seq<char>,
    ContextTree,
>
    decreases entries, n,
{
    if n == 0 || n > entries.len() {
        Map::empty()
    } else {
        entries_tree(entries, (n - 1) as nat).insert(
            entries[n - 1].0@,
            entries[n - 1].1.tree(),
        )
    }
}

/// No name occurs twice among the entries.
pub open spec fn distinct_names(entries: Seq<(String, TemplateContext)>) -> bool {
    forall|i: int, j: int|
        0 <= i < j < entries.len() ==> (#[trigger] entries[i]).0@ != (#[trigger] entries[j]).0@
}

/// No name occurs twice among the entries, and each holds a well-formed context.
pub open spec fn entries_wf(entries: Seq<(String, TemplateContext)>) -> bool {
    &&& distinct_names(entries)
    &&& forall|i: int| 0 <= i < entries.len() ==> (#[trigger] entries[i]).1.wf()
}

impl TemplateContext {
    /// The tree this context stands for.
    pub open spec fn tree(self) -> ContextTree
        decreases self, 0nat,
    {
        match self {
            TemplateContext::Value(text) => ContextTree::Leaf(text@),
            TemplateContext::Nested(entries) => ContextTree::Node(
                entries_tree(entries@, entries@.len()),
            ),
        }
    }

    /// Well-formedness: at every level of the context no name occurs twice.
    pub open spec fn wf(self) -> bool
        decreases self,
    {
        match self {
            TemplateContext::Value(_) => true,
            TemplateContext::Nested(entries) => {
                &&& distinct_names(entries@)
                &&& forall|i: int| 0 <= i < entries@.len() ==> (#[trigger] entries@[i]).1.wf()
            },
        }
    }

    /// Tests whether no name occurs twice at any level of the context.
    pub fn check_wf(&self) -> (ok: bool)
        ensures
            ok == self.wf(),
        decreases self,
    {
        match self {
            TemplateContext::Value(_) => true,
            TemplateContext::Nested(entries) => {
                let mut at: usize = 0;
                while at < entries.len()
                    invariant
                        at <= entries.len(),
                        *self == TemplateContext::Nested(*entries),
                        forall|i: int| 0 <= i < at ==> (#[trigger] entries@[i]).1.wf(),
                        forall|i: int, j: int|
                            0 <= i < j < at ==> (#[trigger] entries@[i]).0@ != (
                            #[trigger] entries@[j]).0@,
                    decreases entries.len() - at,
                {
                    let entry = &entries[at];
                    assert(self->Nested_0 == *entries);
                    if !entry.1.check_wf() {
                        return false;
                    }
                    let mut before: usize = 0;
                    while before < at
                        invariant
                            before <= at < entries.len(),
                            *self == TemplateContext::Nested(*entries),
                            forall|i: int|
                                0 <= i < before ==> (#[trigger] entries@[i]).0@
                                    != entries@[at as int].0@,
                        decreases at - before,
                    {
                        if entries[before].0 == entries[at].0 {
                            return false;
                        }
                        before = before + 1;
                    }
                    at = at + 1;
                }
                true
            },
        }
    }
}

/// The mapping of the first `n` entries does not look at the entries after them.
proof fn lemma_entries_tree_prefix(
    a: Seq<(String, TemplateContext)>,
    b: Seq<(String, TemplateContext)>,
    n: nat,
)
    requires
        n <= a.len(),
        n <= b.len(),
        forall|i: int| 0 <= i < n ==> a[i] == b[i],
    ensures
        entries_tree(a, n) == entries_tree(b, n),
    decreases n,
{
    if n > 0 {
        lemma_entries_tree_prefix(a, b, (n - 1) as nat);
    }
}

/// Putting `entry` in the place of the entry at `at`, which has the same
/// name, changes the mapping as inserting it does.
proof fn lemma_entries_tree_update(
    entries: Seq<(String, TemplateContext)>,
    at: int,
    entry: (String, TemplateContext),
    n: nat,
)
    requires
        distinct_names(entries),
        0 <= at < entries.len(),
        entries[at].0@ == entry.0@,
        n <= entries.len(),
    ensures
        entries_tree(entries.update(at, entry), n) == if at < n {
            entries_tree(entries, n).insert(entry.0@, entry.1.tree())
        } else {
            entries_tree(entries, n)
        },
    decreases n,
{
    if n > 0 {
        lemma_entries_tree_update(entries, at, entry, (n - 1) as nat);
    }
}

/// Sets `name` to `value` among the entries: the entry of that name is
/// replaced where there is one, and a new entry is added at the end otherwise.
fn insert_entry(entries: &mut Vec<(String, TemplateContext)>, name: String, value: TemplateContext)
    requires
        entries_wf(old(entries)@),
        value.wf(),
    ensures
        entries_wf(final(entries)@),
        entries_tree(final(entries)@, final(entries)@.len()) == entries_tree(
            old(entries)@,
            old(entries)@.len(),
        ).insert(name@, value.tree()),
{
    let ghost before = entries@;
    let mut at: usize = 0;
    while at < entries.len()
        invariant
            at <= entries.len(),
            entries@ == before,
            before == old(entries)@,
            entries_wf(before),
            value.wf(),
            forall|j: int| 0 <= j < at ==> (#[trigger] before[j]).0@ != name@,
        decreases entries.len() - at,
    {
        if entries[at].0 == name {
            entries.set(at, (name, value));
            proof {
                lemma_entries_tree_update(before, at as int, (name, value), before.len());
            }
            return ;
        }
        at = at + 1;
    }
    entries.push((name, value));
    proof {
        lemma_entries_tree_prefix(entries@, before, before.len());
    }
}

/// The context that a decoded value stands for: a string is a leaf, a
/// mapping is a node, and every other shape is refused.
pub open spec fn context_of(value: YamlValue) -> Result<ContextTree, DSDMError>
    decreases value, 0nat,
{
    match value {
        YamlValue::String(text) => Ok(ContextTree::Leaf(text@)),
        YamlValue::Mapping(entries) => match mapping_context(entries@, entries@.len()) {
            Ok(names) => Ok(ContextTree::Node(names)),
            Err(e) => Err(e),
        },
        _ => Err(DSDMError::InvalidValue),
    }
}

/// The mapping that the first `n` entries of a decoded mapping stand for.
///
/// The entries are taken in order and the first that fails decides the
/// error: an entry fails with `InvalidKey` where its key is no string, and
/// else with the error of its value. Where a key occurs more than once, the
/// later entry counts.
pub open spec fn mapping_context(entries: Seq<(YamlValue, YamlValue)>, n: nat) -> Result<
    Map<Seq<char>, ContextTree>,
    DSDMError,
>
    decreases entries, n,
{
    if n == 0 || n > entries.len() {
        Ok(Map::empty())
    } else {
        match mapping_context(entries, (n - 1) as nat) {
            Err(e) => Err(e),
            Ok(names) => match entries[n - 1].0 {
                YamlValue::String(name) => match context_of(entries[n - 1].1) {
                    Ok(tree) => Ok(names.insert(name@, tree)),
                    Err(e) => Err(e),
                },
                _ => Err(DSDMError::InvalidKey),
            },
        }
    }
}

/// Once the first `n` entries fail, every longer run of entries fails with
/// the same error.
proof fn lemma_mapping_context_fails(entries: Seq<(YamlValue, YamlValue)>, n: nat, m: nat)
    requires
        n <= m <= entries.len(),
        mapping_context(entries, n) is Err,
    ensures
        mapping_context(entries, m) == mapping_context(entries, n),
    decreases m,
{
    if n < m {
        lemma_mapping_context_fails(entries, n, (m - 1) as nat);
    }
}

/// Whether `built` is the outcome that `expected` describes: the same
/// error, or a well-formed context that stands for the expected tree.
pub open spec fn builds(
    built: Result<TemplateContext, DSDMError>,
    expected: Result<ContextTree, DSDMError>,
) -> bool {
    match expected {
        Ok(tree) => built is Ok && built->Ok_0.wf() && built->Ok_0.tree() == tree,
        Err(e) => built == Err::<TemplateContext, DSDMError>(e),
    }
}

/// Builds the context of one decoded value.
pub fn context_from(value: &YamlValue) -> (built: Result<TemplateContext, DSDMError>)
    ensures
        builds(built, context_of(*value)),
    decreases value, 0nat,
{
    match value {
        YamlValue::String(text) => Ok(TemplateContext::Value(text.clone())),
        YamlValue::Mapping(entries) => {
            let mut names: Vec<(String, TemplateContext)> = Vec::new();
            match extend_entries(&mut names, entries) {
                Ok(()) => {
                    assert(Map::<Seq<char>, ContextTree>::empty().union_prefer_right(
                        mapping_context(entries@, entries@.len())->Ok_0,
                    ) =~= mapping_context(entries@, entries@.len())->Ok_0);
                    Ok(TemplateContext::Nested(names))
                },
                Err(e) => Err(e),
            }
        },
        _ => Err(DSDMError::InvalidValue),
    }
}

/// Sets each entry of a decoded mapping among `names`, in order, and stops
/// at the first entry that fails.
fn extend_entries(
    names: &mut Vec<(String, TemplateContext)>,
    entries: &Vec<(YamlValue, YamlValue)>,
) -> (outcome: Result<(), DSDMError>)
    requires
        entries_wf(old(names)@),
    ensures
        match mapping_context(entries@, entries@.len()) {
            Ok(added) => {
                &&& outcome is Ok
                &&& entries_wf(final(names)@)
                &&& entries_tree(final(names)@, final(names)@.len()) == entries_tree(
                    old(names)@,
                    old(names)@.len(),
                ).union_prefer_right(added)
            },
            Err(e) => outcome == Err::<(), DSDMError>(e),
        },
    decreases entries, 1nat,
{
    let ghost base = entries_tree(names@, names@.len());
    let mut at: usize = 0;
    while at < entries.len()
        invariant
            at <= entries.len(),
            base == entries_tree(old(names)@, old(names)@.len()),
            mapping_context(entries@, at as nat) is Ok,
            entries_wf(names@),
            entries_tree(names@, names@.len()) == base.union_prefer_right(
                mapping_context(entries@, at as nat)->Ok_0,
            ),
        decreases entries.len() - at,
    {
        let entry = &entries[at];
        match &entry.0 {
            YamlValue::String(name) => match context_from(&entry.1) {
                Ok(tree) => {
                    insert_entry(names, name.clone(), tree);
                },
                Err(e) => {
                    proof {
                        lemma_mapping_context_fails(entries@, (at + 1) as nat, entries@.len());
                    }
                    return Err(e);
                },
            },
            _ => {
                proof {
                    lemma_mapping_context_fails(entries@, (at + 1) as nat, entries@.len());
                }
                return Err(DSDMError::InvalidKey);
            },
        }
        at = at + 1;
    }
    Ok(())
}

/// The name under which the global defaults stand in every context.
pub open spec fn global_name() -> Seq<char> {
    "global"@
}

/// What the global defaults bring to a context: their variables as one
/// node under the reserved name where they are a mapping, and nothing where
/// they are of another shape.
pub open spec fn global_part(global: YamlValue) -> Result<Map<Seq<char>, ContextTree>, DSDMError> {
    match global {
        YamlValue::Mapping(entries) => match mapping_context(entries@, entries@.len()) {
            Ok(names) => Ok(Map::empty().insert(global_name(), ContextTree::Node(names))),
            Err(e) => Err(e),
        },
        _ => Ok(Map::empty()),
    }
}

/// What a module's own variables bring to a context: nothing where the
/// manifest names none, the entries of a mapping, and `InvalidValue` for
/// every other shape, a single string among them.
pub open spec fn local_part(local: Option<YamlValue>) -> Result<
    Map<Seq<char>, ContextTree>,
    DSDMError,
> {
    match local {
        None => Ok(Map::empty()),
        Some(YamlValue::Mapping(entries)) => mapping_context(entries@, entries@.len()),
        Some(_) => Err(DSDMError::InvalidValue),
    }
}

/// The context of a module: the global part, with the module's own
/// variables laid over it. A failed load of the global defaults comes
/// first, then a failure in the global variables, then one in the module's.
pub open spec fn merged_context(
    local: Option<YamlValue>,
    global: Result<YamlValue, DSDMError>,
) -> Result<ContextTree, DSDMError> {
    match global {
        Err(e) => Err(e),
        Ok(defaults) => match global_part(defaults) {
            Err(e) => Err(e),
            Ok(shared) => match local_part(local) {
                Err(e) => Err(e),
                Ok(own) => Ok(ContextTree::Node(shared.union_prefer_right(own))),
            },
        },
    }
}

/// Where the first `n` entries of a decoded mapping build, the name of
/// each of them is in the mapping built, and stands for the context of the
/// last entry of that name.
pub proof fn lemma_mapping_context_entry(entries: Seq<(YamlValue, YamlValue)>, n: nat, at: int)
    requires
        n <= entries.len(),
        0 <= at < n,
        mapping_context(entries, n) is Ok,
    ensures
        entries[at].0 is String,
        context_of(entries[at].1) is Ok,
        mapping_context(entries, n)->Ok_0.dom().contains(entries[at].0->String_0@),
        (forall|later: int|
            at < later < n ==> (#[trigger] entries[later]).0->String_0@ != entries[at].0->String_0@)
            ==> mapping_context(entries, n)->Ok_0[entries[at].0->String_0@] == context_of(
            entries[at].1,
        )->Ok_0,
    decreases n,
{
    if at < n - 1 {
        lemma_mapping_context_entry(entries, (n - 1) as nat, at);
    }
}

/// Every name of the mapping that the first `n` entries of a decoded
/// mapping build is the key of one of them.
pub proof fn lemma_mapping_context_names(
    entries: Seq<(YamlValue, YamlValue)>,
    n: nat,
    name: Seq<char>,
)
    requires
        n <= entries.len(),
        mapping_context(entries, n) is Ok,
        mapping_context(entries, n)->Ok_0.dom().contains(name),
    ensures
        exists|at: int|
            0 <= at < n && (#[trigger] entries[at]).0 is String && entries[at].0->String_0@ == name,
    decreases n,
{
    if n > 0 && entries[n - 1].0->String_0@ != name {
        lemma_mapping_context_names(entries, (n - 1) as nat, name);
    }
}

/// The names at the top of a module's context are the reserved name
/// `global`, which is there only where the global defaults are a mapping,
/// and the keys of the module's own variables: nothing else gets in.
pub proof fn law_context_names(
    local: Option<YamlValue>,
    defaults: YamlValue,
    name: Seq<char>,
)
    requires
        merged_context(local, Ok(defaults)) is Ok,
        merged_context(local, Ok(defaults))->Ok_0->Node_0.dom().contains(name),
    ensures
        merged_context(local, Ok(defaults))->Ok_0 is Node,
        (name == global_name() && defaults is Mapping) || (local matches Some(
            YamlValue::Mapping(entries),
        ) && exists|at: int|
            0 <= at < entries@.len() && (#[trigger] entries@[at]).0 is String
                && entries@[at].0->String_0@ == name),
{
    if local_part(local)->Ok_0.dom().contains(name) {
        let entries = local->Some_0->Mapping_0@;
        lemma_mapping_context_names(entries, entries.len(), name);
    }
}

/// Without variables of its own, a module's context holds the global
/// defaults under the reserved name `global`, and nothing else.
pub proof fn law_global_only(defaults: YamlValue)
    requires
        defaults is Mapping,
        context_of(defaults) is Ok,
    ensures
        merged_context(None, Ok(defaults)) is Ok,
        merged_context(None, Ok(defaults))->Ok_0 matches ContextTree::Node(names) && {
            &&& names.dom() =~= set![global_name()]
            &&& names[global_name()] == context_of(defaults)->Ok_0
        },
{
}

/// A variable of the module whose name is `global`, or begins with it, is
/// no error: wherever the global defaults and the module's variables build,
/// the context builds too and holds that name. Where no later entry of the
/// module repeats the name, it stands for the module's value, also where it
/// takes the place of the global defaults.
pub proof fn law_shadowing_allowed(local: YamlValue, defaults: YamlValue, at: int)
    requires
        global_part(defaults) is Ok,
        local is Mapping,
        context_of(local) is Ok,
        0 <= at < local->Mapping_0@.len(),
        local->Mapping_0@[at].0 is String,
        global_name().is_prefix_of(local->Mapping_0@[at].0->String_0@),
    ensures
        merged_context(Some(local), Ok(defaults)) is Ok,
        merged_context(Some(local), Ok(defaults))->Ok_0 matches ContextTree::Node(names) && {
            let entries = local->Mapping_0@;
            let name = entries[at].0->String_0@;
            &&& names.dom().contains(name)
            &&& (forall|later: int|
                at < later < entries.len() ==> (#[trigger] entries[later]).0->String_0@ != name)
                ==> names[name] == context_of(entries[at].1)->Ok_0
        },
{
    let entries = local->Mapping_0@;
    lemma_mapping_context_entry(entries, entries.len(), at);
}

/// Whether a variable of this name may hide the global defaults: the name
/// is `global` or begins with it.
pub fn shadows_global(name: &str) -> (shadows: bool)
    ensures
        shadows == global_name().is_prefix_of(name@),
{
    proof {
        reveal_strlit("global");
    }
    if name.unicode_len() < 6 {
        return false;
    }
    let head = String::from_str(name.substring_char(0, 6));
    head == String::from_str("global")
}

/// The names among the first `n` entries of a decoded mapping that may hide
/// the global defaults, in order, each as often as it occurs.
pub open spec fn shadowing(entries: Seq<(YamlValue, YamlValue)>, n: nat) -> Seq<Seq<char>>
    decreases n,
{
    if n == 0 || n > entries.len() {
        Seq::empty()
    } else {
        let before = shadowing(entries, (n - 1) as nat);
        match entries[n - 1].0 {
            YamlValue::String(name) => if global_name().is_prefix_of(name@) {
                before.push(name@)
            } else {
                before
            },
            _ => before,
        }
    }
}

/// The names among a module's own variables that may hide the global
/// defaults: those worth a warning to the module's author. Variables that
/// are no mapping have none.
pub fn shadowing_names(local: &Option<YamlValue>) -> (names: Vec<String>)
    ensures
        texts(names@) == match *local {
            Some(YamlValue::Mapping(entries)) => shadowing(entries@, entries@.len()),
            _ => Seq::empty(),
        },
{
    let mut names: Vec<String> = Vec::new();
    if let Some(YamlValue::Mapping(entries)) = local {
        let mut at: usize = 0;
        while at < entries.len()
            invariant
                at <= entries.len(),
                texts(names@) == shadowing(entries@, at as nat),
            decreases entries.len() - at,
        {
            if let YamlValue::String(name) = &entries[at].0 {
                if shadows_global(name.as_str()) {
                    names.push(name.clone());
                }
            }
            at = at + 1;
        }
    }
    names
}

/// Builds the context of a module from its own template variables and the
/// global ones.
pub fn build_context(template: Option<YamlValue>, global: Result<YamlValue, DSDMError>) -> (built:
    Result<TemplateContext, DSDMError>)
    ensures
        builds(built, merged_context(template, global)),
{
    let defaults = match global {
        Ok(defaults) => defaults,
        Err(e) => {
            return Err(e);
        },
    };
    let mut names: Vec<(String, TemplateContext)> = Vec::new();
    if let YamlValue::Mapping(entries) = &defaults {
        let mut shared: Vec<(String, TemplateContext)> = Vec::new();
        match extend_entries(&mut shared, entries) {
            Ok(()) => {},
            Err(e) => {
                return Err(e);
            },
        }
        assert(Map::<Seq<char>, ContextTree>::empty().union_prefer_right(
            mapping_context(entries@, entries@.len())->Ok_0,
        ) =~= mapping_context(entries@, entries@.len())->Ok_0);
        let defaults_node = TemplateContext::Nested(shared);
        assert(defaults_node.tree() == ContextTree::Node(
            mapping_context(entries@, entries@.len())->Ok_0,
        ));
        assert(defaults_node.wf());
        names.push((String::from_str("global"), defaults_node));
        assert(entries_tree(names@, 0) =~= Map::empty());
    }
    match &template {
        None => {
            assert(global_part(defaults)->Ok_0.union_prefer_right(Map::empty()) =~= global_part(
                defaults,
            )->Ok_0);
        },
        Some(YamlValue::Mapping(entries)) => {
            match extend_entries(&mut names, entries) {
                Ok(()) => {},
                Err(e) => {
                    return Err(e);
                },
            }
        },
        Some(_) => {
            return Err(DSDMError::InvalidValue);
        },
    }
    Ok(TemplateContext::Nested(names))
}

} // verus!
