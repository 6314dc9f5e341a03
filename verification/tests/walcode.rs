use plugin_manager::paths::{join_path, resolve_agent_home, HomeDirError};
use plugin_manager::plugin::ShellType;
use plugin_manager::walcode::{
    check_installed, installed_version, manifest_path, plugin_manifest_exists, read_manifest,
    walcode_home_dir, WalcodePluginManager,
};

const GOOD_MANIFEST: &str = r#"{"name": "walcode-warp", "version": "0.1.0"}"#;

fn walcode() -> WalcodePluginManager {
    WalcodePluginManager::new(None, None, None)
}

#[test]
fn walcode_manifest_path_layout() {
    assert_eq!(manifest_path("/home/u/.claw"), "/home/u/.claw/plugins/walcode-warp/plugin.json");
    assert_eq!(manifest_path("/home/u/.claw/"), "/home/u/.claw/plugins/walcode-warp/plugin.json");
    assert_eq!(manifest_path(""), "plugins/walcode-warp/plugin.json");
}

#[test]
fn walcode_manifest_exists_checks_disk() {
    assert!(!plugin_manifest_exists("/nonexistent-directory-for-walcode-tests"));
}

#[test]
fn walcode_installed_needs_name_and_version_strings() {
    assert!(check_installed(Some(GOOD_MANIFEST)));
    assert!(!check_installed(Some(r#"{"name": "walcode-warp"}"#)));
    assert!(!check_installed(Some(r#"{"version": "0.1.0"}"#)));
    assert!(!check_installed(Some(r#"{"name": "walcode-warp", "version": 1}"#)));
    assert!(!check_installed(Some(r#"["name", "version"]"#)));
    assert!(!check_installed(Some("not json")));
    assert!(!check_installed(None));
    assert!(read_manifest(Some("{}")).is_some());
    assert!(read_manifest(Some("{")).is_none());
}

#[test]
fn walcode_installed_version_reads_manifest() {
    assert_eq!(installed_version(Some(GOOD_MANIFEST)), Some("0.1.0".to_string()));
    assert_eq!(installed_version(Some(r#"{"version": "2.3.4", "extra": [1, 2]}"#)), Some("2.3.4".to_string()));
    assert_eq!(installed_version(Some(r#"{"version": null}"#)), None);
    assert_eq!(installed_version(Some(r#"{"nested": {"version": "1.0.0"}}"#)), None);
    assert_eq!(installed_version(Some("")), None);
    assert_eq!(installed_version(None), None);
}

#[test]
fn walcode_needs_update_cases() {
    let m = walcode();
    assert!(m.needs_update(Some(r#"{"version": "0.0.9"}"#), true));
    assert!(!m.needs_update(Some(GOOD_MANIFEST), true));
    assert!(!m.needs_update(Some(r#"{"version": "0.2"}"#), true));
    // A manifest without a readable version asks for an update when it exists.
    assert!(m.needs_update(Some(r#"{"name": "walcode-warp"}"#), true));
    assert!(m.needs_update(None, true));
    assert!(!m.needs_update(None, false));
    assert!(m.is_installed(Some(GOOD_MANIFEST)));
}

#[test]
fn walcode_finish_update_outcomes() {
    let m = walcode();
    assert!(m.finish_update(Ok("log\n".to_string()), Some(GOOD_MANIFEST)).is_ok());
    let err = m.finish_update(Ok("log\n".to_string()), Some(r#"{"version": "0.0.1"}"#)).unwrap_err();
    assert_eq!(err.message, "Plugin update did not take effect");
    assert_eq!(err.log, "log\nPost-update version check: plugin is still outdated\n");
    let err = m.finish_update(Ok(String::new()), None).unwrap_err();
    assert_eq!(err.log, "Post-update version check: plugin is still outdated\n");
}

#[test]
fn walcode_commands_messages_and_instructions() {
    let m = WalcodePluginManager::new(None, Some(ShellType::Fish), Some("/usr/bin".to_string()));
    assert_eq!(m.executor.shell_type, ShellType::Fish);
    let install = m.install_command();
    assert_eq!(install.program, "claw");
    assert_eq!(install.executor.shell_type, ShellType::Fish);
    assert_eq!(install.executor.shell_path, None);
    assert_eq!(install.args, vec!["plugins", "install", "@warp-dot-dev/walcode-warp"]);
    assert_eq!(install.env, Some(vec![("PATH".to_string(), "/usr/bin".to_string())]));
    let update = walcode().update_command();
    assert_eq!(update.args, vec!["plugins", "update", "walcode-warp"]);
    assert_eq!(update.env, None);
    assert_eq!(update.executor.shell_type, ShellType::Bash);
    assert_eq!(walcode().minimum_plugin_version(), "0.1.0");
    assert!(walcode().can_auto_install());
    assert_eq!(
        walcode().install_success_message(),
        "Warp plugin installed. Please restart `claw` to activate."
    );
    let install_steps = walcode().install_instructions();
    assert_eq!(install_steps.steps.len(), 2);
    assert_eq!(install_steps.steps[0].command, "claw plugins install @warp-dot-dev/walcode-warp");
    assert!(!install_steps.steps[1].executable);
    let update_steps = walcode().update_instructions();
    assert_eq!(update_steps.steps[0].command, "claw plugins update walcode-warp");
    assert_eq!(update_steps.post_install_notes, vec!["Restart claw to activate the update."]);
}

#[test]
fn walcode_home_prefers_override() {
    assert_eq!(walcode_home_dir(Some("/opt/claw".to_string())), Ok("/opt/claw".to_string()));
    assert_eq!(
        resolve_agent_home(None, Some("/home/u".to_string()), ".claw"),
        Ok("/home/u/.claw".to_string())
    );
    assert_eq!(resolve_agent_home(None, None, ".claw"), Err(HomeDirError::NotFound));
    assert_eq!(HomeDirError::NotFound.message(), "could not determine home directory");
}

#[test]
fn path_join_follows_unix_rules() {
    assert_eq!(join_path("/a", "b"), "/a/b");
    assert_eq!(join_path("/a/", "b"), "/a/b");
    assert_eq!(join_path("", "b"), "b");
    assert_eq!(join_path("/a", "/etc"), "/etc");
}
