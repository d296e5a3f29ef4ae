use dsdm::args::ModuleArgs;
use dsdm::deps::{include_args, DepGraph, DepStep, DepWalk};
use dsdm::manifest::IncludeEntry;

fn args(title: &str, subdir: Option<&str>) -> ModuleArgs {
    ModuleArgs { title: title.to_string(), subdir: subdir.map(|s| s.to_string()) }
}

fn names(entries: Vec<(&str, Option<&str>)>) -> Option<Vec<IncludeEntry>> {
    Some(
        entries
            .into_iter()
            .map(|(module, path)| IncludeEntry {
                path: path.map(|p| p.to_string()),
                module: module.to_string(),
            })
            .collect(),
    )
}

fn leaf(name: &str) -> DepGraph {
    DepGraph { name: name.to_string(), children: vec![] }
}

#[test]
fn module_args_from_an_entry() {
    let entry = IncludeEntry { path: Some("nested".to_string()), module: "b".to_string() };
    assert_eq!(ModuleArgs::from(entry), args("b", Some("nested")));
    let entry = IncludeEntry { path: None, module: "c".to_string() };
    assert_eq!(ModuleArgs::from(entry), args("c", None));
    assert_eq!(
        include_args(&names(vec![("b", Some("nested")), ("c", None)])),
        vec![args("b", Some("nested")), args("c", None)]
    );
    assert_eq!(include_args(&None), Vec::<ModuleArgs>::new());
}

#[test]
fn a_module_without_includes_is_a_single_node() {
    let (mut walk, first) = DepWalk::start(args("solo", None));
    assert_eq!(first, DepStep::Read(args("solo", None)));
    assert_eq!(walk.loaded(&None), DepStep::Done(leaf("solo")));
    let (mut walk, _) = DepWalk::start(args("solo", Some("sub")));
    assert_eq!(walk.loaded(&Some(vec![])), DepStep::Done(leaf("solo")));
}

#[test]
fn a_includes_b_under_a_subdirectory() {
    let (mut walk, first) = DepWalk::start(args("a", None));
    assert_eq!(first, DepStep::Read(args("a", None)));
    let second = walk.loaded(&names(vec![("b", Some("nested"))]));
    assert_eq!(second, DepStep::Read(args("b", Some("nested"))));
    let last = walk.loaded(&None);
    assert_eq!(last, DepStep::Done(DepGraph { name: "a".to_string(), children: vec![leaf("b")] }));
    assert!(walk.stack.is_empty());
}

#[test]
fn modules_are_asked_for_depth_first_in_manifest_order() {
    // a names b and e; b names c and d.
    let (mut walk, first) = DepWalk::start(args("a", None));
    let mut asked = vec![first];
    asked.push(walk.loaded(&names(vec![("b", None), ("e", None)])));
    asked.push(walk.loaded(&names(vec![("c", None), ("d", Some("x"))])));
    asked.push(walk.loaded(&None));
    asked.push(walk.loaded(&None));
    let done = walk.loaded(&None);
    assert_eq!(
        asked,
        vec![
            DepStep::Read(args("a", None)),
            DepStep::Read(args("b", None)),
            DepStep::Read(args("c", None)),
            DepStep::Read(args("d", Some("x"))),
            DepStep::Read(args("e", None)),
        ]
    );
    assert_eq!(
        done,
        DepStep::Done(DepGraph {
            name: "a".to_string(),
            children: vec![
                DepGraph { name: "b".to_string(), children: vec![leaf("c"), leaf("d")] },
                leaf("e"),
            ],
        })
    );
}

#[test]
fn a_module_named_twice_is_walked_twice() {
    let (mut walk, _) = DepWalk::start(args("a", None));
    assert_eq!(walk.loaded(&names(vec![("b", None), ("b", None)])), DepStep::Read(args("b", None)));
    assert_eq!(walk.loaded(&None), DepStep::Read(args("b", None)));
    assert_eq!(
        walk.loaded(&None),
        DepStep::Done(DepGraph { name: "a".to_string(), children: vec![leaf("b"), leaf("b")] })
    );
}
