use dsdm::error::DSDMError;
use dsdm::manifest::YamlValue;
use dsdm::template::{
    build_context, context_from, shadowing_names, shadows_global, TemplateContext,
};

fn text(value: &str) -> YamlValue {
    YamlValue::String(value.to_string())
}

fn mapping(entries: Vec<(&str, YamlValue)>) -> YamlValue {
    YamlValue::Mapping(entries.into_iter().map(|(name, value)| (text(name), value)).collect())
}

fn leaf(value: &str) -> TemplateContext {
    TemplateContext::Value(value.to_string())
}

fn node(entries: Vec<(&str, TemplateContext)>) -> TemplateContext {
    TemplateContext::Nested(
        entries.into_iter().map(|(name, value)| (name.to_string(), value)).collect(),
    )
}

#[test]
fn absent_templates_give_only_the_global_key() {
    let globals = mapping(vec![("editor", text("vim")), ("shell", text("zsh"))]);
    let built = build_context(None, Ok(globals)).unwrap();
    assert_eq!(
        built,
        node(vec![("global", node(vec![("editor", leaf("vim")), ("shell", leaf("zsh"))]))])
    );
    assert!(built.check_wf());
}

#[test]
fn globals_that_are_no_mapping_bring_nothing() {
    assert_eq!(build_context(None, Ok(YamlValue::Null)).unwrap(), node(vec![]));
    assert_eq!(
        build_context(Some(mapping(vec![("name", text("alice"))])), Ok(YamlValue::Null)).unwrap(),
        node(vec![("name", leaf("alice"))])
    );
}

#[test]
fn local_variables_stand_beside_the_global_ones() {
    let built = build_context(
        Some(mapping(vec![("name", text("alice"))])),
        Ok(mapping(vec![("editor", text("vim"))])),
    )
    .unwrap();
    assert_eq!(
        built,
        node(vec![("global", node(vec![("editor", leaf("vim"))])), ("name", leaf("alice"))])
    );
}

#[test]
fn nested_mappings_become_nested_contexts() {
    let local = mapping(vec![(
        "git",
        mapping(vec![("user", mapping(vec![("email", text("a@b.c"))])), ("pager", text("less"))]),
    )]);
    assert_eq!(
        build_context(Some(local), Ok(YamlValue::Null)).unwrap(),
        node(vec![(
            "git",
            node(vec![("user", node(vec![("email", leaf("a@b.c"))])), ("pager", leaf("less"))])
        )])
    );
}

#[test]
fn a_local_key_named_global_shadows_the_defaults() {
    let built = build_context(
        Some(mapping(vec![("global", text("mine")), ("globalish", text("too"))])),
        Ok(mapping(vec![("editor", text("vim"))])),
    )
    .unwrap();
    assert_eq!(built, node(vec![("global", leaf("mine")), ("globalish", leaf("too"))]));
    assert!(built.check_wf());
}

#[test]
fn a_repeated_key_keeps_the_later_value() {
    let local = YamlValue::Mapping(vec![
        (text("name"), text("alice")),
        (text("other"), text("x")),
        (text("name"), text("bob")),
    ]);
    assert_eq!(
        build_context(Some(local), Ok(YamlValue::Null)).unwrap(),
        node(vec![("name", leaf("bob")), ("other", leaf("x"))])
    );
}

#[test]
fn a_bare_number_at_the_root_is_an_invalid_value() {
    let number = YamlValue::Number("42".to_string());
    assert_eq!(
        build_context(Some(number), Ok(mapping(vec![("editor", text("vim"))]))),
        Err(DSDMError::InvalidValue)
    );
}

#[test]
fn a_string_at_the_root_is_an_invalid_value() {
    assert_eq!(build_context(Some(text("alice")), Ok(YamlValue::Null)), Err(DSDMError::InvalidValue));
    assert_eq!(context_from(&text("alice")), Ok(leaf("alice")));
}

#[test]
fn other_shapes_are_invalid_values_at_any_depth() {
    let shapes = vec![
        YamlValue::Null,
        YamlValue::Bool(true),
        YamlValue::Number("1.5".to_string()),
        YamlValue::Sequence(vec![text("a")]),
        YamlValue::Tagged("!tag".to_string(), Box::new(text("a"))),
    ];
    for shape in shapes {
        let local = mapping(vec![("outer", mapping(vec![("inner", shape)]))]);
        assert_eq!(build_context(Some(local), Ok(YamlValue::Null)), Err(DSDMError::InvalidValue));
    }
}

#[test]
fn a_key_that_is_no_string_is_an_invalid_key() {
    let local = YamlValue::Mapping(vec![(YamlValue::Number("1".to_string()), text("one"))]);
    assert_eq!(build_context(Some(local), Ok(YamlValue::Null)), Err(DSDMError::InvalidKey));
    let globals = YamlValue::Mapping(vec![(YamlValue::Bool(true), text("yes"))]);
    assert_eq!(build_context(None, Ok(globals)), Err(DSDMError::InvalidKey));
}

#[test]
fn the_first_failing_entry_decides_the_error() {
    let local = YamlValue::Mapping(vec![
        (text("fine"), text("x")),
        (text("bad_value"), YamlValue::Null),
        (YamlValue::Null, text("bad key")),
    ]);
    assert_eq!(build_context(Some(local), Ok(YamlValue::Null)), Err(DSDMError::InvalidValue));
    let local = YamlValue::Mapping(vec![
        (YamlValue::Null, YamlValue::Null),
        (text("bad_value"), YamlValue::Null),
    ]);
    assert_eq!(build_context(Some(local), Ok(YamlValue::Null)), Err(DSDMError::InvalidKey));
}

#[test]
fn a_failed_load_of_the_globals_comes_first() {
    let failed = DSDMError::Io("no such file".to_string());
    assert_eq!(
        build_context(Some(YamlValue::Number("42".to_string())), Err(failed)),
        Err(DSDMError::Io("no such file".to_string()))
    );
    let globals = YamlValue::Mapping(vec![(YamlValue::Null, text("x"))]);
    assert_eq!(
        build_context(Some(YamlValue::Number("42".to_string())), Ok(globals)),
        Err(DSDMError::InvalidKey)
    );
}

#[test]
fn names_that_begin_with_global_are_reported() {
    assert!(shadows_global("global"));
    assert!(shadows_global("globals"));
    assert!(!shadows_global("globa"));
    assert!(!shadows_global("my_global"));
    assert!(!shadows_global(""));
    let local = Some(YamlValue::Mapping(vec![
        (text("name"), text("alice")),
        (text("global_theme"), text("dark")),
        (YamlValue::Null, text("x")),
        (text("global"), text("y")),
    ]));
    assert_eq!(shadowing_names(&local), vec!["global_theme", "global"]);
    assert_eq!(shadowing_names(&None), Vec::<String>::new());
    assert_eq!(shadowing_names(&Some(text("global"))), Vec::<String>::new());
}

#[test]
fn a_repeated_name_is_not_well_formed() {
    let twice = TemplateContext::Nested(vec![
        ("a".to_string(), leaf("1")),
        ("b".to_string(), leaf("2")),
        ("a".to_string(), leaf("3")),
    ]);
    assert!(!twice.check_wf());
    assert!(!node(vec![("outer", twice)]).check_wf());
    assert!(node(vec![("a", leaf("1")), ("b", node(vec![("a", leaf("2"))]))]).check_wf());
}
