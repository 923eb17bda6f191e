use hs110_plugin::paths::XtaskCommand;
use hs110_plugin::paths::parse_task;
use hs110_plugin::paths::plugin_artifact_paths;
use hs110_plugin::paths::project_root;
use hs110_plugin::paths::target_dir;

#[test]
fn task_dispatch() {
    assert_eq!(parse_task(Some(String::from("build"))), XtaskCommand::Build);
    assert_eq!(parse_task(Some(String::from("help"))), XtaskCommand::Help);
    assert_eq!(parse_task(Some(String::from("Build"))), XtaskCommand::Help);
    assert_eq!(parse_task(None), XtaskCommand::Help);
}

#[test]
fn root_is_one_level_up() {
    assert_eq!(project_root("/home/user/project/xtask"), "/home/user/project");
    assert_eq!(project_root("a/b"), "a");
}

#[test]
fn target_dir_prefers_the_explicit_path() {
    assert_eq!(target_dir(Some(String::from("/custom/target")), String::from("/p")), "/custom/target");
    assert_eq!(target_dir(None, String::from("/home/user/project")), "/home/user/project/target");
}

#[test]
fn artifact_rename_pair() {
    let (built, installed) = plugin_artifact_paths(&String::from("/p/target"));
    assert_eq!(built, "/p/target/release/hs110-plugin");
    assert_eq!(installed, "/p/target/release/hs110.plugin");
}
