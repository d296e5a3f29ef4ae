//! Walking the modules that a module names, depth first.
//!
//! Reading a manifest is not done here. A [`DepWalk`] says which module to
//! read next, is told what that module names, and in the end hands out the
//! tree of all modules reached. The modules are asked for in the order in
//! which they are applied: a module before the modules it names, and those
//! in the order of its manifest. Nothing guards against a module that names
//! itself, directly or through others: such a walk never ends.

use crate::args::ModuleArgs;
use crate::manifest::IncludeEntry;
use vstd::prelude::*;

verus! {

/// A module and, below it, the modules it names.
#[derive(Debug, PartialEq, Eq)]
pub struct DepGraph {
    pub name: String,
    pub children: Vec<DepGraph>,
}

/// A module whose manifest was read, while the modules it names are walked.
#[derive(Debug, PartialEq, Eq)]
pub struct DepFrame {
    /// The module itself.
    pub module: ModuleArgs,
    /// The modules it names, in the order of its manifest.
    pub pending: Vec<ModuleArgs>,
    /// The trees of the named modules walked so far, in the same order.
    pub children: Vec<DepGraph>,
}

/// A walk in progress.
#[derive(Debug, PartialEq, Eq)]
pub struct DepWalk {
    /// The modules between the root and the one being read, root first.
    pub stack: Vec<DepFrame>,
    /// The module whose manifest is to be read next.
    pub requested: ModuleArgs,
}

/// What a walk asks for next.
#[derive(Debug, PartialEq, Eq)]
pub enum DepStep {
    /// Read the manifest of this module and report what it names.
    Read(ModuleArgs),
    /// The walk is over: this is the tree of the root module.
    Done(DepGraph),
}

/// What a reference to a module says.
pub struct ModuleRef {
    pub title: Seq<char>,
    pub subdir: Option<Seq<char>>,
}

/// What a dependency graph says.
pub struct Tree {
    pub name: Seq<char>,
    pub children: Seq<Tree>,
}

/// What a frame of a walk says.
pub struct Frame {
    pub module: ModuleRef,
    pub pending: Seq<ModuleRef>,
    pub children: Seq<Tree>,
}

/// What a walk says.
pub struct Walk {
    pub stack: Seq<Frame>,
    pub requested: ModuleRef,
}

/// What a step says.
pub enum Step {
    Read(ModuleRef),
    Done(Tree),
}

/// The reference that `args` holds.
pub open spec fn module_ref(args: ModuleArgs) -> ModuleRef {
    ModuleRef {
        title: args.title@,
        subdir: match args.subdir {
            Some(sub) => Some(sub@),
            None => None,
        },
    }
}

/// The reference that an entry of a manifest holds.
pub open spec fn entry_ref(entry: IncludeEntry) -> ModuleRef {
    ModuleRef {
        title: entry.module@,
        subdir: match entry.path {
            Some(sub) => Some(sub@),
            None => None,
        },
    }
}

/// The references that a list of arguments holds.
pub open spec fn module_refs(list: Seq<ModuleArgs>) -> Seq<ModuleRef> {
    list.map_values(|args: ModuleArgs| module_ref(args))
}

/// The references that a manifest names, none where it has no list.
pub open spec fn named(includes: Option<Vec<IncludeEntry>>) -> Seq<ModuleRef> {
    match includes {
        Some(list) => list@.map_values(|entry: IncludeEntry| entry_ref(entry)),
        None => Seq::empty(),
    }
}

/// The trees of the first `n` graphs.
pub open spec fn trees(graphs: Seq<DepGraph>, n: nat) -> Seq<Tree>
    decreases graphs, n,
{
    if n == 0 || n > graphs.len() {
        Seq::empty()
    } else {
        trees(graphs, (n - 1) as nat).push(graphs[n - 1].tree())
    }
}

impl DepGraph {
    /// The tree this graph stands for.
    pub open spec fn tree(self) -> Tree
        decreases self, 0nat,
    {
        Tree { name: self.name@, children: trees(self.children@, self.children@.len()) }
    }
}

impl DepFrame {
    pub open spec fn view(self) -> Frame {
        Frame {
            module: module_ref(self.module),
            pending: module_refs(self.pending@),
            children: trees(self.children@, self.children@.len()),
        }
    }
}

impl DepWalk {
    pub open spec fn view(self) -> Walk {
        Walk {
            stack: self.stack@.map_values(|frame: DepFrame| frame@),
            requested: module_ref(self.requested),
        }
    }
}

impl DepStep {
    pub open spec fn view(self) -> Step {
        match self {
            DepStep::Read(args) => Step::Read(module_ref(args)),
            DepStep::Done(graph) => Step::Done(graph.tree()),
        }
    }
}

/// A frame with one more tree among its children.
pub open spec fn with_child(frame: Frame, child: Tree) -> Frame {
    Frame { module: frame.module, pending: frame.pending, children: frame.children.push(child) }
}

/// The tree of a frame all of whose named modules are walked.
pub open spec fn finished(frame: Frame) -> Tree {
    Tree { name: frame.module.title, children: frame.children }
}

/// Closes the frames on top of the stack that have nothing left to walk,
/// each becoming a child of the frame below it, until a frame has a named
/// module left, which is asked for, or the root is closed.
pub open spec fn settle(stack: Seq<Frame>) -> (Seq<Frame>, Step)
    decreases stack.len(),
{
    if stack.len() == 0 {
        (stack, Step::Done(Tree { name: Seq::empty(), children: Seq::empty() }))
    } else {
        let top = stack.last();
        if top.children.len() < top.pending.len() {
            (stack, Step::Read(top.pending[top.children.len() as int]))
        } else if stack.len() == 1 {
            (Seq::empty(), Step::Done(finished(top)))
        } else {
            let below = stack[stack.len() - 2];
            settle(stack.take(stack.len() - 2).push(with_child(below, finished(top))))
        }
    }
}

/// The walk and the step after the requested module was read and found to
/// name `includes`.
pub open spec fn after_loading(walk: Walk, includes: Seq<ModuleRef>) -> (Walk, Step) {
    let opened = Frame { module: walk.requested, pending: includes, children: Seq::empty() };
    let (stack, step) = settle(walk.stack.push(opened));
    let requested = match step {
        Step::Read(next) => next,
        Step::Done(_) => walk.requested,
    };
    (Walk { stack, requested }, step)
}

/// Whether `tree` is the tree of `module` in a store in which each module
/// names what `store` says: the tree bears the module's title and has one
/// child for each module named, in order, which is the tree of that module.
pub open spec fn resolves(
    store: spec_fn(ModuleRef) -> Seq<ModuleRef>,
    module: ModuleRef,
    tree: Tree,
) -> bool
    decreases tree,
{
    &&& tree.name == module.title
    &&& tree.children.len() == store(module).len()
    &&& forall|i: int|
        0 <= i < tree.children.len() ==> resolves(store, store(module)[i], #[trigger] tree.children[i])
}

/// A frame agrees with the store: it names what the store says of its
/// module, and its children are the trees of the first modules named.
pub open spec fn frame_sound(store: spec_fn(ModuleRef) -> Seq<ModuleRef>, frame: Frame) -> bool {
    &&& frame.pending == store(frame.module)
    &&& frame.children.len() <= frame.pending.len()
    &&& forall|i: int|
        0 <= i < frame.children.len() ==> resolves(
            store,
            frame.pending[i],
            #[trigger] frame.children[i],
        )
}

/// A stack leads from `root` down: it begins with the root, every frame
/// agrees with the store, and every frame but the last is followed by the
/// frame of the next module it names.
pub open spec fn chain(
    store: spec_fn(ModuleRef) -> Seq<ModuleRef>,
    stack: Seq<Frame>,
    root: ModuleRef,
) -> bool {
    &&& stack.len() > 0
    &&& stack[0].module == root
    &&& forall|j: int| 0 <= j < stack.len() ==> frame_sound(store, #[trigger] stack[j])
    &&& forall|j: int|
        0 <= j < stack.len() - 1 ==> {
            let frame = #[trigger] stack[j];
            &&& frame.children.len() < frame.pending.len()
            &&& stack[j + 1].module == frame.pending[frame.children.len() as int]
        }
}

/// A walk from `root` agrees with the store: it has not begun and asks for
/// the root, or its stack leads from the root down and it asks for the next
/// module that the last frame names.
pub open spec fn sound(store: spec_fn(ModuleRef) -> Seq<ModuleRef>, walk: Walk, root: ModuleRef) -> bool {
    if walk.stack.len() == 0 {
        walk.requested == root
    } else {
        let top = walk.stack.last();
        &&& chain(store, walk.stack, root)
        &&& top.children.len() < top.pending.len()
        &&& walk.requested == top.pending[top.children.len() as int]
    }
}

/// Settling a stack that leads from the root down gives such a stack again,
/// with a module left to ask for, or the tree of the root.
proof fn lemma_settle_sound(
    store: spec_fn(ModuleRef) -> Seq<ModuleRef>,
    stack: Seq<Frame>,
    root: ModuleRef,
)
    requires
        chain(store, stack, root),
    ensures
        match settle(stack) {
            (rest, Step::Read(asked)) => {
                &&& chain(store, rest, root)
                &&& rest.last().children.len() < rest.last().pending.len()
                &&& asked == rest.last().pending[rest.last().children.len() as int]
            },
            (_, Step::Done(tree)) => resolves(store, root, tree),
        },
    decreases stack.len(),
{
    let top = stack.last();
    if top.children.len() >= top.pending.len() && stack.len() > 1 {
        let below = stack[stack.len() - 2];
        let closed = with_child(below, finished(top));
        lemma_settle_sound(store, stack.take(stack.len() - 2).push(closed), root);
    }
}

/// A walk that has not begun agrees with every store.
pub proof fn law_walk_begins_sound(store: spec_fn(ModuleRef) -> Seq<ModuleRef>, root: ModuleRef)
    ensures
        sound(store, Walk { stack: Seq::empty(), requested: root }, root),
{
}

/// The walk builds the tree of the root. Where a walk from `root` agrees
/// with a store, and the module it asks for names what the store says,
/// the walk goes on in agreement with the store, or ends with the tree of
/// `root` in that store: every node bears its module's title and has one
/// child for each module that the module names, in the order of its manifest.
pub proof fn law_walk_resolves(
    store: spec_fn(ModuleRef) -> Seq<ModuleRef>,
    walk: Walk,
    root: ModuleRef,
)
    requires
        sound(store, walk, root),
    ensures
        match after_loading(walk, store(walk.requested)) {
            (next, Step::Read(asked)) => sound(store, next, root) && next.requested == asked,
            (_, Step::Done(tree)) => resolves(store, root, tree),
        },
{
    let opened = Frame {
        module: walk.requested,
        pending: store(walk.requested),
        children: Seq::empty(),
    };
    lemma_settle_sound(store, walk.stack.push(opened), root);
}

/// The modules of a tree in the order in which a walk asks for them: the
/// module itself, then each module it names with all that lies below it,
/// in the order of the manifest.
pub open spec fn visit_order(
    store: spec_fn(ModuleRef) -> Seq<ModuleRef>,
    module: ModuleRef,
    tree: Tree,
) -> Seq<ModuleRef>
    decreases tree, 0nat,
{
    seq![module] + children_order(store, store(module), tree.children, tree.children.len())
}

/// The modules of the first `n` trees below a module that names `named`,
/// tree after tree.
pub open spec fn children_order(
    store: spec_fn(ModuleRef) -> Seq<ModuleRef>,
    named: Seq<ModuleRef>,
    below: Seq<Tree>,
    n: nat,
) -> Seq<ModuleRef>
    decreases below, n,
{
    if n == 0 || n > below.len() {
        Seq::empty()
    } else {
        children_order(store, named, below, (n - 1) as nat) + visit_order(
            store,
            named[n - 1],
            below[n - 1],
        )
    }
}

/// The modules that the first `n` frames of a stack stand for, in the
/// order in which they were asked for.
pub open spec fn visited(
    store: spec_fn(ModuleRef) -> Seq<ModuleRef>,
    stack: Seq<Frame>,
    n: nat,
) -> Seq<ModuleRef>
    decreases n,
{
    if n == 0 || n > stack.len() {
        Seq::empty()
    } else {
        let frame = stack[n - 1];
        visited(store, stack, (n - 1) as nat) + seq![frame.module] + children_order(
            store,
            frame.pending,
            frame.children,
            frame.children.len(),
        )
    }
}

/// The modules that a walk asks for in its next `steps` steps, where every
/// module names what the store says.
pub open spec fn asked(
    store: spec_fn(ModuleRef) -> Seq<ModuleRef>,
    walk: Walk,
    steps: nat,
) -> Seq<ModuleRef>
    decreases steps,
{
    if steps == 0 {
        Seq::empty()
    } else {
        let (next, step) = after_loading(walk, store(walk.requested));
        seq![walk.requested] + match step {
            Step::Read(_) => asked(store, next, (steps - 1) as nat),
            Step::Done(_) => Seq::empty(),
        }
    }
}

/// The tree that a walk ends with, if it ends within `steps` steps, where
/// every module names what the store says.
pub open spec fn outcome(
    store: spec_fn(ModuleRef) -> Seq<ModuleRef>,
    walk: Walk,
    steps: nat,
) -> Option<Tree>
    decreases steps,
{
    if steps == 0 {
        None
    } else {
        match after_loading(walk, store(walk.requested)) {
            (next, Step::Read(_)) => outcome(store, next, (steps - 1) as nat),
            (_, Step::Done(tree)) => Some(tree),
        }
    }
}

/// The order of the first `n` trees does not look at the trees after them.
proof fn lemma_children_order_prefix(
    store: spec_fn(ModuleRef) -> Seq<ModuleRef>,
    named: Seq<ModuleRef>,
    a: Seq<Tree>,
    b: Seq<Tree>,
    n: nat,
)
    requires
        n <= a.len(),
        n <= b.len(),
        forall|i: int| 0 <= i < n ==> a[i] == b[i],
    ensures
        children_order(store, named, a, n) == children_order(store, named, b, n),
    decreases n,
{
    if n > 0 {
        lemma_children_order_prefix(store, named, a, b, (n - 1) as nat);
    }
}

/// The modules of the first `n` frames do not look at the frames after them.
proof fn lemma_visited_prefix(
    store: spec_fn(ModuleRef) -> Seq<ModuleRef>,
    a: Seq<Frame>,
    b: Seq<Frame>,
    n: nat,
)
    requires
        n <= a.len(),
        n <= b.len(),
        forall|i: int| 0 <= i < n ==> a[i] == b[i],
    ensures
        visited(store, a, n) == visited(store, b, n),
    decreases n,
{
    if n > 0 {
        lemma_visited_prefix(store, a, b, (n - 1) as nat);
    }
}

/// Settling a stack asks for no module: the frames stand for the same
/// modules afterwards, and the tree of the root, once it is closed, lists
/// them in the same order.
proof fn lemma_settle_visited(
    store: spec_fn(ModuleRef) -> Seq<ModuleRef>,
    stack: Seq<Frame>,
    root: ModuleRef,
)
    requires
        chain(store, stack, root),
    ensures
        match settle(stack) {
            (rest, Step::Read(_)) => visited(store, rest, rest.len()) == visited(
                store,
                stack,
                stack.len(),
            ),
            (_, Step::Done(tree)) => visit_order(store, root, tree) == visited(
                store,
                stack,
                stack.len(),
            ),
        },
    decreases stack.len(),
{
    let top = stack.last();
    if top.children.len() >= top.pending.len() {
        if stack.len() == 1 {
            assert(visited(store, stack, 0) =~= Seq::empty());
            assert(visited(store, stack, 1) =~= visit_order(store, root, finished(top)));
        } else {
            let depth = stack.len();
            let below = stack[depth - 2];
            let closed = with_child(below, finished(top));
            let next = stack.take(depth - 2).push(closed);
            let walked = below.children.len();
            let base = visited(store, stack, (depth - 2) as nat);
            let under = children_order(store, below.pending, below.children, walked);
            let last = visit_order(store, top.module, finished(top));
            lemma_visited_prefix(store, next, stack, (depth - 2) as nat);
            lemma_children_order_prefix(store, below.pending, closed.children, below.children, walked);
            assert(children_order(store, closed.pending, closed.children, walked + 1) == under
                + last);
            assert(visited(store, next, (depth - 1) as nat) == base + seq![below.module] + (under
                + last));
            assert(visited(store, stack, (depth - 1) as nat) == base + seq![below.module] + under);
            assert(visited(store, stack, depth) == base + seq![below.module] + under + last);
            assert(visited(store, next, next.len()) =~= visited(store, stack, stack.len()));
            lemma_settle_visited(store, next, root);
        }
    }
}

/// The generalisation of [`law_walk_order`] to a walk in progress.
proof fn lemma_walk_order(
    store: spec_fn(ModuleRef) -> Seq<ModuleRef>,
    walk: Walk,
    root: ModuleRef,
    steps: nat,
)
    requires
        sound(store, walk, root),
        outcome(store, walk, steps) is Some,
    ensures
        visited(store, walk.stack, walk.stack.len()) + asked(store, walk, steps) == visit_order(
            store,
            root,
            outcome(store, walk, steps)->Some_0,
        ),
    decreases steps,
{
    let opened = Frame {
        module: walk.requested,
        pending: store(walk.requested),
        children: Seq::empty(),
    };
    let stack = walk.stack.push(opened);
    let (next, step) = after_loading(walk, store(walk.requested));
    law_walk_resolves(store, walk, root);
    lemma_settle_visited(store, stack, root);
    lemma_visited_prefix(store, stack, walk.stack, walk.stack.len());
    let before = visited(store, walk.stack, walk.stack.len());
    assert(visited(store, stack, stack.len()) =~= before + seq![walk.requested]);
    if step is Read {
        lemma_walk_order(store, next, root, (steps - 1) as nat);
        assert(before + asked(store, walk, steps) =~= before + seq![walk.requested] + asked(
            store,
            next,
            (steps - 1) as nat,
        ));
    } else {
        assert(before + asked(store, walk, steps) =~= before + seq![walk.requested]);
    }
}

/// Modules are asked for in the order of the tree. Where every module
/// names what the store says and the walk from `root` ends within `steps`
/// steps, the modules it asked for, one after another, are the modules of
/// the tree it ends with: each module before the modules it names, and
/// each named module, with all that lies below it, before the next.
pub proof fn law_walk_order(
    store: spec_fn(ModuleRef) -> Seq<ModuleRef>,
    root: ModuleRef,
    steps: nat,
)
    requires
        outcome(store, Walk { stack: Seq::empty(), requested: root }, steps) is Some,
    ensures
        asked(store, Walk { stack: Seq::empty(), requested: root }, steps) == visit_order(
            store,
            root,
            outcome(store, Walk { stack: Seq::empty(), requested: root }, steps)->Some_0,
        ),
{
    let walk = Walk { stack: Seq::empty(), requested: root };
    lemma_walk_order(store, walk, root, steps);
}

/// What the frames of a stack say.
pub open spec fn frames(stack: Seq<DepFrame>) -> Seq<Frame> {
    stack.map_values(|frame: DepFrame| frame@)
}

/// The first `n` graphs have `n` trees, which do not depend on the graphs
/// after them.
proof fn lemma_trees(a: Seq<DepGraph>, b: Seq<DepGraph>, n: nat)
    requires
        n <= a.len(),
        n <= b.len(),
        forall|i: int| 0 <= i < n ==> a[i] == b[i],
    ensures
        trees(a, n) == trees(b, n),
        trees(a, n).len() == n,
    decreases n,
{
    if n > 0 {
        lemma_trees(a, b, (n - 1) as nat);
    }
}

/// A copy of a reference to a module.
fn copy_args(args: &ModuleArgs) -> (copy: ModuleArgs)
    ensures
        copy == *args,
{
    ModuleArgs {
        title: args.title.clone(),
        subdir: match &args.subdir {
            Some(sub) => Some(sub.clone()),
            None => None,
        },
    }
}

/// The reference to the module that an entry of a manifest names.
fn entry_args(entry: &IncludeEntry) -> (args: ModuleArgs)
    ensures
        module_ref(args) == entry_ref(*entry),
{
    ModuleArgs::from(
        IncludeEntry {
            path: match &entry.path {
                Some(sub) => Some(sub.clone()),
                None => None,
            },
            module: entry.module.clone(),
        },
    )
}

/// The references to the modules that a manifest names, in its order.
pub fn include_args(includes: &Option<Vec<IncludeEntry>>) -> (list: Vec<ModuleArgs>)
    ensures
        module_refs(list@) == named(*includes),
{
    let mut list: Vec<ModuleArgs> = Vec::new();
    if let Some(entries) = includes {
        let mut at: usize = 0;
        while at < entries.len()
            invariant
                at <= entries.len(),
                list@.len() == at,
                forall|i: int| 0 <= i < at ==> module_ref(#[trigger] list@[i]) == entry_ref(entries@[i]),
            decreases entries.len() - at,
        {
            list.push(entry_args(&entries[at]));
            at = at + 1;
        }
    }
    list
}

impl DepWalk {
    /// Begins the walk of the modules reached from `args`. The first step
    /// asks for the manifest of `args` itself.
    pub fn start(args: ModuleArgs) -> (begun: (DepWalk, DepStep))
        ensures
            begun.0@ == (Walk { stack: Seq::empty(), requested: module_ref(args) }),
            begun.1@ == Step::Read(module_ref(args)),
    {
        let first = copy_args(&args);
        let walk = DepWalk { stack: Vec::new(), requested: args };
        assert(walk@.stack =~= Seq::empty());
        (walk, DepStep::Read(first))
    }

    /// Goes on after the requested module was read and found to name
    /// `includes`: asks for the next module, or ends the walk with the tree
    /// of the root.
    pub fn loaded(&mut self, includes: &Option<Vec<IncludeEntry>>) -> (step: DepStep)
        ensures
            (final(self)@, step@) == after_loading(old(self)@, named(*includes)),
    {
        let pending = include_args(includes);
        let module = copy_args(&self.requested);
        let ghost opened = Frame {
            module: module_ref(self.requested),
            pending: named(*includes),
            children: Seq::empty(),
        };
        self.stack.push(DepFrame { module, pending, children: Vec::new() });
        assert(frames(self.stack@) =~= frames(old(self).stack@).push(opened));
        let ghost goal = settle(frames(self.stack@));
        loop
            invariant
                self.stack@.len() > 0,
                self.requested == old(self).requested,
                settle(frames(self.stack@)) == goal,
                goal == settle(old(self)@.stack.push(opened)),
                opened.module == old(self)@.requested,
                opened.pending == named(*includes),
                opened.children == Seq::<Tree>::empty(),
            decreases self.stack@.len(),
        {
            let ghost before = self.stack@;
            let depth = self.stack.len();
            let top = &self.stack[depth - 1];
            proof {
                lemma_trees(top.children@, top.children@, top.children@.len());
            }
            let walked = top.children.len();
            if walked < top.pending.len() {
                let next = copy_args(&top.pending[walked]);
                self.requested = copy_args(&next);
                return DepStep::Read(next);
            }
            let frame = self.stack.pop().unwrap();
            let node = DepGraph { name: frame.module.title, children: frame.children };
            assert(node.tree() == finished(frame@));
            if self.stack.len() == 0 {
                assert(self@.stack =~= Seq::empty());
                return DepStep::Done(node);
            }
            let mut below = self.stack.pop().unwrap();
            let ghost lower = below;
            below.children.push(node);
            proof {
                lemma_trees(below.children@, lower.children@, lower.children@.len());
            }
            self.stack.push(below);
            assert(frames(self.stack@) =~= frames(before).take(before.len() - 2).push(
                with_child(frames(before)[before.len() - 2], finished(frames(before).last())),
            ));
        }
    }
}

} // verus!
