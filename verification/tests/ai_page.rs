use plugin_manager::agents::{CLIAgent, FeatureFlags};
use plugin_manager::settings::{
    derive_agent_attribution_toggle_state, AdminEnablementSetting, AgentAttributionToggleState,
    CliAgentPluginStatus, PluginModalKind,
};

#[test]
fn respect_user_setting_returns_user_pref_unlocked() {
    let state = derive_agent_attribution_toggle_state(
        &AdminEnablementSetting::RespectUserSetting,
        true,
        true,
    );
    assert_eq!(
        state,
        AgentAttributionToggleState {
            is_enabled: true,
            is_forced_by_org: false,
            is_disabled: false,
        }
    );
}

#[test]
fn respect_user_setting_with_user_off_returns_unchecked_unlocked() {
    let state = derive_agent_attribution_toggle_state(
        &AdminEnablementSetting::RespectUserSetting,
        false,
        true,
    );
    assert_eq!(
        state,
        AgentAttributionToggleState {
            is_enabled: false,
            is_forced_by_org: false,
            is_disabled: false,
        }
    );
}

#[test]
fn team_enable_locks_toggle_on_regardless_of_user_pref() {
    let state = derive_agent_attribution_toggle_state(&AdminEnablementSetting::Enable, false, true);
    assert_eq!(
        state,
        AgentAttributionToggleState {
            is_enabled: true,
            is_forced_by_org: true,
            is_disabled: true,
        }
    );
}

#[test]
fn team_disable_locks_toggle_off_regardless_of_user_pref() {
    let state = derive_agent_attribution_toggle_state(&AdminEnablementSetting::Disable, true, true);
    assert_eq!(
        state,
        AgentAttributionToggleState {
            is_enabled: false,
            is_forced_by_org: true,
            is_disabled: true,
        }
    );
}

#[test]
fn ai_globally_disabled_marks_toggle_disabled_but_not_forced() {
    let state = derive_agent_attribution_toggle_state(
        &AdminEnablementSetting::RespectUserSetting,
        true,
        false,
    );
    assert_eq!(
        state,
        AgentAttributionToggleState {
            is_enabled: true,
            is_forced_by_org: false,
            is_disabled: true,
        }
    );
}

#[test]
fn team_force_takes_precedence_over_global_ai_disabled() {
    let state =
        derive_agent_attribution_toggle_state(&AdminEnablementSetting::Enable, false, false);
    assert_eq!(
        state,
        AgentAttributionToggleState {
            is_enabled: true,
            is_forced_by_org: true,
            is_disabled: true,
        }
    );
}

#[test]
fn plugin_status_label_returns_user_facing_strings() {
    assert_eq!(CliAgentPluginStatus::Installed.label(), "Installed");
    assert_eq!(
        CliAgentPluginStatus::UpdateAvailable.label(),
        "Update available"
    );
    assert_eq!(CliAgentPluginStatus::NotInstalled.label(), "Not installed");
}

#[test]
fn plugin_status_modal_kind_maps_to_install_or_update_only() {
    assert_eq!(CliAgentPluginStatus::Installed.modal_kind(), None);
    assert_eq!(
        CliAgentPluginStatus::UpdateAvailable.modal_kind(),
        Some(PluginModalKind::Update)
    );
    assert_eq!(
        CliAgentPluginStatus::NotInstalled.modal_kind(),
        Some(PluginModalKind::Install)
    );
}

#[test]
fn plugin_status_button_label_only_shown_when_action_exists() {
    // Installed has nothing to do, so no button.
    assert_eq!(CliAgentPluginStatus::Installed.button_label(), None);
    assert_eq!(
        CliAgentPluginStatus::UpdateAvailable.button_label(),
        Some("Update")
    );
    assert_eq!(
        CliAgentPluginStatus::NotInstalled.button_label(),
        Some("Install")
    );
}

#[test]
fn plugin_status_modal_kind_and_button_label_have_consistent_action_set() {
    // Whenever a button is shown, a modal kind must exist; and vice-versa.
    for status in [
        CliAgentPluginStatus::Installed,
        CliAgentPluginStatus::UpdateAvailable,
        CliAgentPluginStatus::NotInstalled,
    ] {
        assert_eq!(status.button_label().is_some(), status.modal_kind().is_some());
    }
}

#[test]
fn plugin_status_compute_returns_none_for_agents_without_plugin_support() {
    // Agents with no plugin manager produce no status, whatever the flags.
    let flags = FeatureFlags::new();
    assert!(CliAgentPluginStatus::compute(CLIAgent::Amp, &flags, false, false).is_none());
    assert!(CliAgentPluginStatus::compute(CLIAgent::Unknown, &flags, false, false).is_none());
}

#[test]
fn plugin_status_compute_follows_the_probe_for_supported_agents() {
    let flags = FeatureFlags::new();
    assert_eq!(
        CliAgentPluginStatus::compute(CLIAgent::Claude, &flags, false, true),
        Some(CliAgentPluginStatus::NotInstalled)
    );
    assert_eq!(
        CliAgentPluginStatus::compute(CLIAgent::Claude, &flags, true, true),
        Some(CliAgentPluginStatus::UpdateAvailable)
    );
    assert_eq!(
        CliAgentPluginStatus::compute(CLIAgent::Claude, &flags, true, false),
        Some(CliAgentPluginStatus::Installed)
    );
    // Walcode without its flags has no manager, hence no status.
    assert_eq!(CliAgentPluginStatus::compute(CLIAgent::Walcode, &flags, true, false), None);
}

#[test]
fn team_setting_ignores_user_choice_and_ai_switch() {
    for setting in [AdminEnablementSetting::Enable, AdminEnablementSetting::Disable] {
        let first = derive_agent_attribution_toggle_state(&setting, true, true);
        for (pref, ai) in [(false, false), (false, true), (true, false)] {
            assert_eq!(derive_agent_attribution_toggle_state(&setting, pref, ai), first);
        }
        assert!(first.is_forced_by_org && first.is_disabled);
    }
}
