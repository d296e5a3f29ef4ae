use dsdm::apply::{check_manifest, entry_action, EntryAction, EntryKind};
use dsdm::args::ModuleArgs;
use dsdm::error::DSDMError;
use dsdm::export::get_export_path;
use dsdm::generate::{
    config_directory, confirm_delete, delete_module, dir_error, module, read, Answer,
    DeleteRequest, ModuleFiles, Removal, StoreSetup,
};
use dsdm::path::parent;
use dsdm::store::{
    craft_path, craft_path_module, global_file_in, manifest_file_in, module_dir_in,
    module_exists, store_root_in, store_root_of, DEFAULT_EXPORT_PATH, DSDM_CONFIG_PATH,
    GLOBAL_FILE_PATH, MODULE_FILE_PATH,
};

fn args(title: &str, subdir: Option<&str>) -> ModuleArgs {
    ModuleArgs { title: title.to_string(), subdir: subdir.map(|s| s.to_string()) }
}

#[test]
fn names_of_the_store() {
    assert_eq!(DSDM_CONFIG_PATH, ".dsdm.d");
    assert_eq!(MODULE_FILE_PATH, "mod.yaml");
    assert_eq!(GLOBAL_FILE_PATH, "global.yaml");
    assert_eq!(DEFAULT_EXPORT_PATH, ".config");
}

#[test]
fn store_lies_under_the_home_directory() {
    assert_eq!(store_root_in("/home/alice"), "/home/alice/.dsdm.d");
    assert_eq!(store_root_of(Some("/home/alice".to_string())), Ok("/home/alice/.dsdm.d".to_string()));
    assert_eq!(store_root_of(None), Err(DSDMError::HomeError));
    assert_eq!(global_file_in("/home/alice/.dsdm.d"), "/home/alice/.dsdm.d/global.yaml");
}

#[test]
fn subdirectory_comes_before_the_title() {
    let root = "/home/alice/.dsdm.d";
    assert_eq!(module_dir_in(root, &args("shell", None)), "/home/alice/.dsdm.d/shell");
    assert_eq!(
        module_dir_in(root, &args("shell", Some("work/tools"))),
        "/home/alice/.dsdm.d/work/tools/shell"
    );
    assert_eq!(
        manifest_file_in("/home/alice/.dsdm.d/shell"),
        "/home/alice/.dsdm.d/shell/mod.yaml"
    );
}

#[test]
fn store_of_the_current_user() {
    match craft_path() {
        Ok(root) => {
            assert!(root.ends_with(".dsdm.d"));
            let dir = craft_path_module(&args("shell", Some("sub"))).unwrap();
            assert_eq!(dir, format!("{}/sub/shell", root));
            let destination = get_export_path(&args("shell", None), &None, "bashrc").unwrap();
            assert!(destination.ends_with(".config/shell/bashrc"));
        }
        Err(e) => {
            assert_eq!(e, DSDMError::HomeError);
            assert_eq!(craft_path_module(&args("shell", None)), Err(DSDMError::HomeError));
            assert_eq!(
                get_export_path(&args("shell", None), &None, "bashrc"),
                Err(DSDMError::HomeError)
            );
        }
    }
}

#[test]
fn a_module_needs_its_directory_and_its_manifest() {
    assert!(module_exists(true, true));
    assert!(!module_exists(true, false));
    assert!(!module_exists(false, true));
    assert!(!module_exists(false, false));
}

#[test]
fn the_store_is_set_up_once() {
    assert_eq!(config_directory("/home/alice/.dsdm.d", true), None);
    assert_eq!(
        config_directory("/home/alice/.dsdm.d", false),
        Some(StoreSetup {
            dir: "/home/alice/.dsdm.d".to_string(),
            global_file: "/home/alice/.dsdm.d/global.yaml".to_string(),
        })
    );
}

#[test]
fn creating_a_module() {
    let root = "/home/alice/.dsdm.d";
    assert_eq!(module(root, &args("shell", None), true), Err(DSDMError::ModuleExists));
    assert_eq!(
        module(root, &args("shell", Some("work")), false),
        Ok(ModuleFiles {
            dir: "/home/alice/.dsdm.d/work/shell".to_string(),
            manifest: "/home/alice/.dsdm.d/work/shell/mod.yaml".to_string(),
        })
    );
}

#[test]
fn reading_a_module() {
    let root = "/home/alice/.dsdm.d";
    assert_eq!(read(root, &args("shell", None), false), Err(DSDMError::NotExists));
    assert_eq!(
        read(root, &args("shell", None), true),
        Ok("/home/alice/.dsdm.d/shell/mod.yaml".to_string())
    );
}

#[test]
fn directory_errors_name_the_path_and_the_cause() {
    assert_eq!(
        dir_error("/root/x", "Permission denied (os error 13)"),
        DSDMError::DirError("Failed to create /root/x: Permission denied (os error 13)".to_string())
    );
}

#[test]
fn destroying_a_module() {
    let root = "/home/alice/.dsdm.d";
    assert_eq!(
        delete_module(root, &args("shell", None), false, true),
        Err(DSDMError::DirError("Config directory doesn't exist.".to_string()))
    );
    assert_eq!(delete_module(root, &args("shell", None), true, false), Err(DSDMError::NotExists));
    let request = delete_module(root, &args("shell", Some("work")), true, true).unwrap();
    assert_eq!(
        request,
        DeleteRequest {
            prompt: "Delete module shell?".to_string(),
            target: "/home/alice/.dsdm.d/work/shell".to_string(),
        }
    );
    assert_eq!(
        confirm_delete(request, Answer::Yes),
        Ok(Removal::Remove("/home/alice/.dsdm.d/work/shell".to_string()))
    );
    let request = delete_module(root, &args("shell", None), true, true).unwrap();
    assert_eq!(request.target, module_dir_in(root, &args("shell", None)));
    assert_eq!(confirm_delete(request, Answer::No), Ok(Removal::Quit));
    let request = delete_module(root, &args("shell", None), true, true).unwrap();
    assert_eq!(confirm_delete(request, Answer::Failed), Err(DSDMError::QuestionError));
}

#[test]
fn parents_of_paths() {
    assert_eq!(parent("/home/alice/.config/shell/bashrc"), Some("/home/alice/.config/shell".to_string()));
    assert_eq!(parent("/a"), Some("/".to_string()));
    assert_eq!(parent("a"), Some("".to_string()));
    assert_eq!(parent("/"), None);
    assert_eq!(parent(""), None);
    assert_eq!(parent("a/b/"), Some("a".to_string()));
}

#[test]
fn what_is_done_for_an_entry() {
    assert_eq!(
        entry_action(EntryKind::Directory, "conf", "/home/alice/.config/shell/conf".to_string()),
        EntryAction::CreateDir("/home/alice/.config/shell/conf".to_string())
    );
    assert_eq!(
        entry_action(EntryKind::File, "bashrc", "/home/alice/.config/shell/bashrc".to_string()),
        EntryAction::Write {
            destination: "/home/alice/.config/shell/bashrc".to_string(),
            folder: Some("/home/alice/.config/shell".to_string()),
        }
    );
    assert_eq!(
        entry_action(EntryKind::Directory, "mod.yaml", "/x/mod.yaml".to_string()),
        EntryAction::CreateDir("/x/mod.yaml".to_string())
    );
    assert_eq!(entry_action(EntryKind::Other, "link", "/x/link".to_string()), EntryAction::Skip);
}

#[test]
fn only_the_modules_own_manifest_is_skipped() {
    assert_eq!(
        entry_action(EntryKind::File, "mod.yaml", "/home/alice/.config/m/mod.yaml".to_string()),
        EntryAction::Skip
    );
    assert_eq!(
        entry_action(
            EntryKind::File,
            "sub/mod.yaml",
            "/home/alice/.config/m/sub/mod.yaml".to_string()
        ),
        EntryAction::Write {
            destination: "/home/alice/.config/m/sub/mod.yaml".to_string(),
            folder: Some("/home/alice/.config/m/sub".to_string()),
        }
    );
    assert!(check_manifest("mod.yaml"));
    assert!(check_manifest("mod.yaml/"));
    assert!(!check_manifest("sub/mod.yaml"));
    assert!(!check_manifest("./mod.yaml"));
    assert!(!check_manifest("mod.yml"));
    assert!(!check_manifest(""));
}
