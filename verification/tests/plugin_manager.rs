use std::cmp::Ordering;

use plugin_manager::agents::{plugin_manager_for, CLIAgent, FeatureFlag, FeatureFlags, PluginManagerKind};
use plugin_manager::version::{compare_versions, is_older, piece_value, version_triple};

fn flags_with(agent_flag: FeatureFlag, agent_on: bool, notifications_on: bool) -> FeatureFlags {
    let mut flags = FeatureFlags::new();
    flags.override_enabled(agent_flag, agent_on);
    flags.override_enabled(FeatureFlag::HOANotifications, notifications_on);
    flags
}

#[test]
fn returns_manager_for_claude() {
    assert!(plugin_manager_for(CLIAgent::Claude, &FeatureFlags::new()).is_some());
}

#[test]
fn returns_manager_for_opencode() {
    let flags = flags_with(FeatureFlag::OpenCodeNotifications, true, true);
    assert!(plugin_manager_for(CLIAgent::OpenCode, &flags).is_some());
}

#[test]
fn returns_manager_for_codex() {
    let flags = flags_with(FeatureFlag::CodexNotifications, true, true);
    assert!(plugin_manager_for(CLIAgent::Codex, &flags).is_some());
}

#[test]
fn returns_manager_for_gemini() {
    let flags = flags_with(FeatureFlag::GeminiNotifications, true, true);
    assert!(plugin_manager_for(CLIAgent::Gemini, &flags).is_some());
}

#[test]
fn returns_manager_for_walcode() {
    let flags = flags_with(FeatureFlag::WalcodeNotifications, true, true);
    assert!(plugin_manager_for(CLIAgent::Walcode, &flags).is_some());
}

#[test]
fn returns_manager_for_zeroclaw() {
    let flags = flags_with(FeatureFlag::ZeroclawNotifications, true, true);
    assert!(plugin_manager_for(CLIAgent::Zeroclaw, &flags).is_some());
}

#[test]
fn walcode_returns_none_when_hoa_disabled() {
    let flags = flags_with(FeatureFlag::WalcodeNotifications, true, false);
    assert!(plugin_manager_for(CLIAgent::Walcode, &flags).is_none());
}

#[test]
fn walcode_returns_none_when_agent_flag_disabled() {
    let flags = flags_with(FeatureFlag::WalcodeNotifications, false, true);
    assert!(plugin_manager_for(CLIAgent::Walcode, &flags).is_none());
}

#[test]
fn zeroclaw_returns_none_when_hoa_disabled() {
    let flags = flags_with(FeatureFlag::ZeroclawNotifications, true, false);
    assert!(plugin_manager_for(CLIAgent::Zeroclaw, &flags).is_none());
}

#[test]
fn zeroclaw_returns_none_when_agent_flag_disabled() {
    let flags = flags_with(FeatureFlag::ZeroclawNotifications, false, true);
    assert!(plugin_manager_for(CLIAgent::Zeroclaw, &flags).is_none());
}

#[test]
fn returns_none_for_unsupported_agents() {
    let flags = FeatureFlags::new();
    assert!(plugin_manager_for(CLIAgent::Amp, &flags).is_none());
    assert!(plugin_manager_for(CLIAgent::Droid, &flags).is_none());
    assert!(plugin_manager_for(CLIAgent::Copilot, &flags).is_none());
    assert!(plugin_manager_for(CLIAgent::Auggie, &flags).is_none());
    assert!(plugin_manager_for(CLIAgent::CursorCli, &flags).is_none());
    assert!(plugin_manager_for(CLIAgent::Pi, &flags).is_none());
    assert!(plugin_manager_for(CLIAgent::Goose, &flags).is_none());
    assert!(plugin_manager_for(CLIAgent::Vibe, &flags).is_none());
    assert!(plugin_manager_for(CLIAgent::Unknown, &flags).is_none());
}

#[test]
fn compare_versions_equal() {
    assert_eq!(compare_versions("1.2.3", "1.2.3"), Ordering::Equal);
}

#[test]
fn compare_versions_less_than_major() {
    assert_eq!(compare_versions("1.0.0", "2.0.0"), Ordering::Less);
}

#[test]
fn compare_versions_less_than_minor() {
    assert_eq!(compare_versions("1.1.0", "1.2.0"), Ordering::Less);
}

#[test]
fn compare_versions_less_than_patch() {
    assert_eq!(compare_versions("1.1.0", "1.1.1"), Ordering::Less);
}

#[test]
fn compare_versions_greater_than() {
    assert_eq!(compare_versions("3.0.0", "2.0.0"), Ordering::Greater);
}

#[test]
fn compare_versions_unparseable_treated_as_zero() {
    assert_eq!(compare_versions("abc", "0.0.0"), Ordering::Equal);
    assert_eq!(compare_versions("abc", "1.0.0"), Ordering::Less);
}

#[test]
fn compare_versions_partial_version_string() {
    assert_eq!(compare_versions("2", "2.0.0"), Ordering::Equal);
    assert_eq!(compare_versions("2.1", "2.1.0"), Ordering::Equal);
}

#[test]
fn compare_versions_empty_string() {
    assert_eq!(compare_versions("", "2.0.0"), Ordering::Less);
}

#[test]
fn every_supported_agent_names_its_own_manager() {
    let mut flags = FeatureFlags::new();
    for flag in [
        FeatureFlag::HOANotifications,
        FeatureFlag::OpenCodeNotifications,
        FeatureFlag::CodexNotifications,
        FeatureFlag::GeminiNotifications,
        FeatureFlag::WalcodeNotifications,
        FeatureFlag::ZeroclawNotifications,
    ] {
        flags.override_enabled(flag, true);
    }
    assert_eq!(plugin_manager_for(CLIAgent::Claude, &flags), Some(PluginManagerKind::ClaudeCode));
    assert_eq!(plugin_manager_for(CLIAgent::OpenCode, &flags), Some(PluginManagerKind::OpenCode));
    assert_eq!(plugin_manager_for(CLIAgent::Codex, &flags), Some(PluginManagerKind::Codex));
    assert_eq!(plugin_manager_for(CLIAgent::Gemini, &flags), Some(PluginManagerKind::Gemini));
    assert_eq!(plugin_manager_for(CLIAgent::Walcode, &flags), Some(PluginManagerKind::Walcode));
    assert_eq!(plugin_manager_for(CLIAgent::Zeroclaw, &flags), Some(PluginManagerKind::Zeroclaw));
    assert_eq!(plugin_manager_for(CLIAgent::Amp, &flags), None);
}

#[test]
fn feature_flag_reads_back_what_was_set() {
    let mut flags = FeatureFlags::new();
    assert!(!flags.is_enabled(FeatureFlag::CodexNotifications));
    flags.override_enabled(FeatureFlag::CodexNotifications, true);
    assert!(flags.is_enabled(FeatureFlag::CodexNotifications));
    assert!(!flags.is_enabled(FeatureFlag::GeminiNotifications));
    flags.override_enabled(FeatureFlag::CodexNotifications, false);
    assert!(!flags.is_enabled(FeatureFlag::CodexNotifications));
}

#[test]
fn claude_needs_no_flag_but_others_lose_theirs_without_notifications() {
    let flags = flags_with(FeatureFlag::GeminiNotifications, true, false);
    assert!(plugin_manager_for(CLIAgent::Claude, &flags).is_some());
    assert!(plugin_manager_for(CLIAgent::Gemini, &flags).is_none());
    let flags = flags_with(FeatureFlag::OpenCodeNotifications, false, true);
    assert!(plugin_manager_for(CLIAgent::OpenCode, &flags).is_none());
}

#[test]
fn version_pieces_read_as_u32() {
    assert_eq!(piece_value(&"42".chars().collect()), 42);
    assert_eq!(piece_value(&"+7".chars().collect()), 7);
    assert_eq!(piece_value(&"+".chars().collect()), 0);
    assert_eq!(piece_value(&"".chars().collect()), 0);
    assert_eq!(piece_value(&"1a".chars().collect()), 0);
    assert_eq!(piece_value(&"-1".chars().collect()), 0);
    assert_eq!(piece_value(&"4294967295".chars().collect()), 4294967295);
    assert_eq!(piece_value(&"4294967296".chars().collect()), 0);
    assert_eq!(piece_value(&"0004294967295".chars().collect()), 4294967295);
}

#[test]
fn version_triple_takes_first_three_pieces() {
    assert_eq!(version_triple("1.2.3"), (1, 2, 3));
    assert_eq!(version_triple("1.2.3.4"), (1, 2, 3));
    assert_eq!(version_triple("10..3"), (10, 0, 3));
    assert_eq!(version_triple("v1.2.3"), (0, 2, 3));
    assert_eq!(version_triple("1.x.5"), (1, 0, 5));
    assert_eq!(version_triple(""), (0, 0, 0));
    assert_eq!(version_triple(".7"), (0, 7, 0));
}

#[test]
fn version_order_is_numeric_not_textual() {
    assert_eq!(compare_versions("0.10.0", "0.9.9"), Ordering::Greater);
    assert_eq!(compare_versions("0.9.9", "0.10.0"), Ordering::Less);
    assert!(is_older("0.0.9", "0.1.0"));
    assert!(!is_older("0.1.0", "0.1.0"));
    assert!(!is_older("1.0", "0.1.0"));
}
