//! What the AI settings page shows: the agent-attribution toggle as the
//! team's admin setting and the global AI switch leave it, and the plugin
//! status of each agent with the action it offers.

use vstd::prelude::*;
use crate::agents::{manager_kind_for, plugin_manager_for, CLIAgent, FeatureFlags};

verus! {

/// How a team's admin has set a feature.
#[derive(Debug, PartialEq, Eq, Structural, Clone, Copy)]
pub enum AdminEnablementSetting {
    /// On for every member.
    Enable,
    /// Off for every member.
    Disable,
    /// Each member decides.
    RespectUserSetting,
}

/// How the agent-attribution toggle is drawn.
#[derive(Debug, PartialEq, Eq, Structural, Clone, Copy)]
pub struct AgentAttributionToggleState {
    /// The toggle is checked.
    pub is_enabled: bool,
    /// The team's setting decides the toggle.
    pub is_forced_by_org: bool,
    /// The toggle cannot be changed.
    pub is_disabled: bool,
}

/// The toggle's state: a team setting of `Enable` or `Disable` checks or
/// unchecks it and locks it, whatever the user chose and whether AI is on;
/// otherwise it shows the user's choice, locked (but not forced) only while
/// AI is off globally.
pub open spec fn toggle_state(
    setting: AdminEnablementSetting,
    user_pref: bool,
    ai_enabled: bool,
) -> AgentAttributionToggleState {
    match setting {
        AdminEnablementSetting::Enable => AgentAttributionToggleState {
            is_enabled: true,
            is_forced_by_org: true,
            is_disabled: true,
        },
        AdminEnablementSetting::Disable => AgentAttributionToggleState {
            is_enabled: false,
            is_forced_by_org: true,
            is_disabled: true,
        },
        AdminEnablementSetting::RespectUserSetting => AgentAttributionToggleState {
            is_enabled: user_pref,
            is_forced_by_org: false,
            is_disabled: !ai_enabled,
        },
    }
}

/// The agent-attribution toggle's state (see [`toggle_state`]).
pub fn derive_agent_attribution_toggle_state(
    setting: &AdminEnablementSetting,
    user_pref: bool,
    ai_enabled: bool,
) -> (r: AgentAttributionToggleState)
    ensures
        r == toggle_state(*setting, user_pref, ai_enabled),
{
    match setting {
        AdminEnablementSetting::Enable => AgentAttributionToggleState {
            is_enabled: true,
            is_forced_by_org: true,
            is_disabled: true,
        },
        AdminEnablementSetting::Disable => AgentAttributionToggleState {
            is_enabled: false,
            is_forced_by_org: true,
            is_disabled: true,
        },
        AdminEnablementSetting::RespectUserSetting => AgentAttributionToggleState {
            is_enabled: user_pref,
            is_forced_by_org: false,
            is_disabled: !ai_enabled,
        },
    }
}

/// A toggle the team forces is also locked.
pub proof fn lemma_forced_toggle_is_locked(
    setting: AdminEnablementSetting,
    user_pref: bool,
    ai_enabled: bool,
)
    ensures
        toggle_state(setting, user_pref, ai_enabled).is_forced_by_org ==> toggle_state(
            setting,
            user_pref,
            ai_enabled,
        ).is_disabled,
{
}

/// A team setting takes precedence over both the user's choice and the
/// global AI switch: under `Enable` or `Disable` the toggle looks the same
/// whatever those are.
pub proof fn lemma_team_setting_takes_precedence(
    setting: AdminEnablementSetting,
    user_pref_a: bool,
    ai_enabled_a: bool,
    user_pref_b: bool,
    ai_enabled_b: bool,
)
    requires
        setting != AdminEnablementSetting::RespectUserSetting,
    ensures
        toggle_state(setting, user_pref_a, ai_enabled_a) == toggle_state(
            setting,
            user_pref_b,
            ai_enabled_b,
        ),
{
}

/// Where the team leaves the choice to the user, the toggle shows that
/// choice and is never forced.
pub proof fn lemma_user_choice_shown(user_pref: bool, ai_enabled: bool)
    ensures
        toggle_state(AdminEnablementSetting::RespectUserSetting, user_pref, ai_enabled).is_enabled
            == user_pref,
        !toggle_state(
            AdminEnablementSetting::RespectUserSetting,
            user_pref,
            ai_enabled,
        ).is_forced_by_org,
{
}

/// Under `RespectUserSetting` the toggle is locked exactly when AI is off
/// globally, whatever the user chose; under `Enable` or `Disable` it is
/// always locked and forced, checked exactly under `Enable`.
pub proof fn lemma_toggle_lock_follows_ai_switch(user_pref: bool, ai_enabled: bool)
    ensures
        toggle_state(AdminEnablementSetting::RespectUserSetting, user_pref, ai_enabled).is_disabled
            == !ai_enabled,
        toggle_state(AdminEnablementSetting::Enable, user_pref, ai_enabled).is_disabled,
        toggle_state(AdminEnablementSetting::Enable, user_pref, ai_enabled).is_forced_by_org,
        toggle_state(AdminEnablementSetting::Enable, user_pref, ai_enabled).is_enabled,
        toggle_state(AdminEnablementSetting::Disable, user_pref, ai_enabled).is_disabled,
        toggle_state(AdminEnablementSetting::Disable, user_pref, ai_enabled).is_forced_by_org,
        !toggle_state(AdminEnablementSetting::Disable, user_pref, ai_enabled).is_enabled,
{
}

/// Which dialog a plugin action opens.
#[derive(Debug, PartialEq, Eq, Structural, Clone, Copy)]
pub enum PluginModalKind {
    Install,
    Update,
}

/// Where an agent's plugin stands.
#[derive(Debug, PartialEq, Eq, Structural, Clone, Copy)]
pub enum CliAgentPluginStatus {
    Installed,
    UpdateAvailable,
    NotInstalled,
}

/// The dialog a status offers: none once installed and current.
pub open spec fn status_modal(status: CliAgentPluginStatus) -> Option<PluginModalKind> {
    match status {
        CliAgentPluginStatus::Installed => None,
        CliAgentPluginStatus::UpdateAvailable => Some(PluginModalKind::Update),
        CliAgentPluginStatus::NotInstalled => Some(PluginModalKind::Install),
    }
}

/// The status of a plugin found installed or not, and needing an update or
/// not.
pub open spec fn probed_status(is_installed: bool, needs_update: bool) -> CliAgentPluginStatus {
    if !is_installed {
        CliAgentPluginStatus::NotInstalled
    } else if needs_update {
        CliAgentPluginStatus::UpdateAvailable
    } else {
        CliAgentPluginStatus::Installed
    }
}

impl CliAgentPluginStatus {
    /// The text shown for the status.
    pub fn label(&self) -> (r: &'static str)
        ensures
            *self == CliAgentPluginStatus::Installed ==> r@ == "Installed"@,
            *self == CliAgentPluginStatus::UpdateAvailable ==> r@ == "Update available"@,
            *self == CliAgentPluginStatus::NotInstalled ==> r@ == "Not installed"@,
    {
        match self {
            CliAgentPluginStatus::Installed => "Installed",
            CliAgentPluginStatus::UpdateAvailable => "Update available",
            CliAgentPluginStatus::NotInstalled => "Not installed",
        }
    }

    /// The dialog the status offers (see [`status_modal`]).
    pub fn modal_kind(&self) -> (r: Option<PluginModalKind>)
        ensures
            r == status_modal(*self),
    {
        match self {
            CliAgentPluginStatus::Installed => None,
            CliAgentPluginStatus::UpdateAvailable => Some(PluginModalKind::Update),
            CliAgentPluginStatus::NotInstalled => Some(PluginModalKind::Install),
        }
    }

    /// The text of the button that opens the status's dialog; none where
    /// there is nothing to do.
    pub fn button_label(&self) -> (r: Option<&'static str>)
        ensures
            r is Some <==> status_modal(*self) is Some,
            *self == CliAgentPluginStatus::UpdateAvailable ==> (r matches Some(s) && s@ == "Update"@),
            *self == CliAgentPluginStatus::NotInstalled ==> (r matches Some(s) && s@ == "Install"@),
    {
        match self {
            CliAgentPluginStatus::Installed => None,
            CliAgentPluginStatus::UpdateAvailable => Some("Update"),
            CliAgentPluginStatus::NotInstalled => Some("Install"),
        }
    }

    /// The status of a plugin found installed or not, and needing an update
    /// or not (see [`probed_status`]).
    pub fn from_probe(is_installed: bool, needs_update: bool) -> (r: Self)
        ensures
            r == probed_status(is_installed, needs_update),
    {
        if !is_installed {
            CliAgentPluginStatus::NotInstalled
        } else if needs_update {
            CliAgentPluginStatus::UpdateAvailable
        } else {
            CliAgentPluginStatus::Installed
        }
    }

    /// The status of `agent`'s plugin: none where no plugin manager serves
    /// the agent under `flags`; otherwise as its manager found it
    /// (`is_installed`, `needs_update`).
    pub fn compute(agent: CLIAgent, flags: &FeatureFlags, is_installed: bool, needs_update: bool) -> (r:
        Option<Self>)
        ensures
            r == (match manager_kind_for(agent, flags@) {
                Some(_) => Some(probed_status(is_installed, needs_update)),
                None => None,
            }),
    {
        match plugin_manager_for(agent, flags) {
            Some(_) => Some(Self::from_probe(is_installed, needs_update)),
            None => None,
        }
    }
}

/// A status offers a dialog exactly when it shows a button.
pub proof fn lemma_status_action_consistent(status: CliAgentPluginStatus)
    ensures
        status_modal(status) is Some <==> status != CliAgentPluginStatus::Installed,
        status_modal(status) == Some(PluginModalKind::Install) <==> status
            == CliAgentPluginStatus::NotInstalled,
        status_modal(status) == Some(PluginModalKind::Update) <==> status
            == CliAgentPluginStatus::UpdateAvailable,
{
}

/// A plugin not installed offers its installation whatever the update
/// check said; one installed offers an update exactly when it needs one.
pub proof fn lemma_probed_status_action(is_installed: bool, needs_update: bool)
    ensures
        !is_installed ==> status_modal(probed_status(is_installed, needs_update)) == Some(
            PluginModalKind::Install,
        ),
        is_installed ==> (status_modal(probed_status(is_installed, needs_update)) is Some
            <==> needs_update),
{
}

} // verus!
