//! The command-line agents Warp knows, the feature flags that gate their
//! notification plugins, and which plugin manager serves which agent.

use vstd::prelude::*;

verus! {

/// A command-line coding agent.
#[derive(Debug, PartialEq, Eq, Structural, Clone, Copy)]
pub enum CLIAgent {
    Claude,
    OpenCode,
    Codex,
    Gemini,
    Walcode,
    Zeroclaw,
    Amp,
    Droid,
    Copilot,
    Auggie,
    CursorCli,
    Pi,
    Goose,
    Vibe,
    Unknown,
}

/// A feature flag that gates agent notifications.
#[derive(Debug, PartialEq, Eq, Structural, Clone, Copy)]
pub enum FeatureFlag {
    /// Notifications from agents run in the terminal at all.
    HOANotifications,
    OpenCodeNotifications,
    CodexNotifications,
    GeminiNotifications,
    WalcodeNotifications,
    ZeroclawNotifications,
}

/// The state of the notification feature flags; its view is the set of
/// flags that are enabled.
pub struct FeatureFlags {
    hoa: bool,
    open_code: bool,
    codex: bool,
    gemini: bool,
    walcode: bool,
    zeroclaw: bool,
}

impl FeatureFlags {
    /// The field that holds `flag`.
    closed spec fn holds(&self, flag: FeatureFlag) -> bool {
        match flag {
            FeatureFlag::HOANotifications => self.hoa,
            FeatureFlag::OpenCodeNotifications => self.open_code,
            FeatureFlag::CodexNotifications => self.codex,
            FeatureFlag::GeminiNotifications => self.gemini,
            FeatureFlag::WalcodeNotifications => self.walcode,
            FeatureFlag::ZeroclawNotifications => self.zeroclaw,
        }
    }
}

impl View for FeatureFlags {
    type V = Set<FeatureFlag>;

    closed spec fn view(&self) -> Set<FeatureFlag> {
        Set::new(|f: FeatureFlag| self.holds(f))
    }
}

impl FeatureFlags {
    /// All flags disabled.
    pub fn new() -> (r: Self)
        ensures
            r@ == Set::<FeatureFlag>::empty(),
    {
        let r = FeatureFlags {
            hoa: false,
            open_code: false,
            codex: false,
            gemini: false,
            walcode: false,
            zeroclaw: false,
        };
        assert(r@ =~= Set::<FeatureFlag>::empty());
        r
    }

    /// Whether `flag` is enabled.
    pub fn is_enabled(&self, flag: FeatureFlag) -> (r: bool)
        ensures
            r == self@.contains(flag),
    {
        match flag {
            FeatureFlag::HOANotifications => self.hoa,
            FeatureFlag::OpenCodeNotifications => self.open_code,
            FeatureFlag::CodexNotifications => self.codex,
            FeatureFlag::GeminiNotifications => self.gemini,
            FeatureFlag::WalcodeNotifications => self.walcode,
            FeatureFlag::ZeroclawNotifications => self.zeroclaw,
        }
    }

    /// Turns `flag` on or off, leaving the other flags as they were.
    pub fn override_enabled(&mut self, flag: FeatureFlag, enabled: bool)
        ensures
            final(self)@ == (if enabled {
                old(self)@.insert(flag)
            } else {
                old(self)@.remove(flag)
            }),
    {
        match flag {
            FeatureFlag::HOANotifications => self.hoa = enabled,
            FeatureFlag::OpenCodeNotifications => self.open_code = enabled,
            FeatureFlag::CodexNotifications => self.codex = enabled,
            FeatureFlag::GeminiNotifications => self.gemini = enabled,
            FeatureFlag::WalcodeNotifications => self.walcode = enabled,
            FeatureFlag::ZeroclawNotifications => self.zeroclaw = enabled,
        }
        assert(self@ =~= (if enabled {
            old(self)@.insert(flag)
        } else {
            old(self)@.remove(flag)
        }));
    }
}

/// Which plugin manager serves an agent.
#[derive(Debug, PartialEq, Eq, Structural, Clone, Copy)]
pub enum PluginManagerKind {
    ClaudeCode,
    OpenCode,
    Codex,
    Gemini,
    Walcode,
    Zeroclaw,
}

/// Both the agent's own notification flag and the general one are enabled.
pub open spec fn gated(enabled: Set<FeatureFlag>, flag: FeatureFlag) -> bool {
    enabled.contains(flag) && enabled.contains(FeatureFlag::HOANotifications)
}

/// The plugin manager that serves `agent` under the enabled flags: the
/// first agent's always; OpenCode's, Codex's, Gemini's, Walcode's and ZeroClaw's only
/// while both their own flag and the general notification flag are on;
/// none for any other agent.
pub open spec fn manager_kind_for(agent: CLIAgent, enabled: Set<FeatureFlag>) -> Option<
    PluginManagerKind,
> {
    match agent {
        CLIAgent::Claude => Some(PluginManagerKind::ClaudeCode),
        CLIAgent::OpenCode => if gated(enabled, FeatureFlag::OpenCodeNotifications) {
            Some(PluginManagerKind::OpenCode)
        } else {
            None
        },
        CLIAgent::Codex => if gated(enabled, FeatureFlag::CodexNotifications) {
            Some(PluginManagerKind::Codex)
        } else {
            None
        },
        CLIAgent::Gemini => if gated(enabled, FeatureFlag::GeminiNotifications) {
            Some(PluginManagerKind::Gemini)
        } else {
            None
        },
        CLIAgent::Walcode => if gated(enabled, FeatureFlag::WalcodeNotifications) {
            Some(PluginManagerKind::Walcode)
        } else {
            None
        },
        CLIAgent::Zeroclaw => if gated(enabled, FeatureFlag::ZeroclawNotifications) {
            Some(PluginManagerKind::Zeroclaw)
        } else {
            None
        },
        _ => None,
    }
}

/// Whether both `flag` and the general notification flag are on.
fn flag_and_notifications(flags: &FeatureFlags, flag: FeatureFlag) -> (r: bool)
    ensures
        r == gated(flags@, flag),
{
    flags.is_enabled(flag) && flags.is_enabled(FeatureFlag::HOANotifications)
}

/// The plugin manager that serves `agent` under `flags`, if any (see
/// [`manager_kind_for`]).
pub fn plugin_manager_for(agent: CLIAgent, flags: &FeatureFlags) -> (r: Option<PluginManagerKind>)
    ensures
        r == manager_kind_for(agent, flags@),
{
    match agent {
        CLIAgent::Claude => Some(PluginManagerKind::ClaudeCode),
        CLIAgent::OpenCode => if flag_and_notifications(flags, FeatureFlag::OpenCodeNotifications) {
            Some(PluginManagerKind::OpenCode)
        } else {
            None
        },
        CLIAgent::Codex => if flag_and_notifications(flags, FeatureFlag::CodexNotifications) {
            Some(PluginManagerKind::Codex)
        } else {
            None
        },
        CLIAgent::Gemini => if flag_and_notifications(flags, FeatureFlag::GeminiNotifications) {
            Some(PluginManagerKind::Gemini)
        } else {
            None
        },
        CLIAgent::Walcode => if flag_and_notifications(flags, FeatureFlag::WalcodeNotifications) {
            Some(PluginManagerKind::Walcode)
        } else {
            None
        },
        CLIAgent::Zeroclaw => if flag_and_notifications(flags, FeatureFlag::ZeroclawNotifications) {
            Some(PluginManagerKind::Zeroclaw)
        } else {
            None
        },
        _ => None,
    }
}

/// A flag reads back as it was last set, and setting one flag leaves the
/// others alone.
pub proof fn lemma_flag_reads_back(
    before: Set<FeatureFlag>,
    after: Set<FeatureFlag>,
    flag: FeatureFlag,
    enabled: bool,
    other: FeatureFlag,
)
    requires
        after == (if enabled {
            before.insert(flag)
        } else {
            before.remove(flag)
        }),
        other != flag,
    ensures
        after.contains(flag) == enabled,
        after.contains(other) == before.contains(other),
{
}

/// Agents outside the supported set have no plugin manager, whatever the
/// flags say.
pub proof fn lemma_unsupported_agents_have_no_manager(agent: CLIAgent, enabled: Set<FeatureFlag>)
    requires
        agent != CLIAgent::Claude,
        agent != CLIAgent::OpenCode,
        agent != CLIAgent::Codex,
        agent != CLIAgent::Gemini,
        agent != CLIAgent::Walcode,
        agent != CLIAgent::Zeroclaw,
    ensures
        manager_kind_for(agent, enabled) is None,
{
}

/// Turning the general notification flag off takes every manager away but
/// that of the one agent no flag gates.
pub proof fn lemma_notifications_off_leaves_only_claude(agent: CLIAgent, enabled: Set<FeatureFlag>)
    requires
        !enabled.contains(FeatureFlag::HOANotifications),
        agent != CLIAgent::Claude,
    ensures
        manager_kind_for(agent, enabled) is None,
{
}

/// Each gated agent has a manager only while its own flag and the general
/// notification flag are both on, and then has its own manager; turning
/// either flag off takes the manager away.
pub proof fn lemma_gated_agents_need_both_flags(enabled: Set<FeatureFlag>)
    ensures
        manager_kind_for(CLIAgent::OpenCode, enabled) is Some <==> (enabled.contains(
            FeatureFlag::OpenCodeNotifications,
        ) && enabled.contains(FeatureFlag::HOANotifications)),
        manager_kind_for(CLIAgent::Codex, enabled) is Some <==> (enabled.contains(
            FeatureFlag::CodexNotifications,
        ) && enabled.contains(FeatureFlag::HOANotifications)),
        manager_kind_for(CLIAgent::Gemini, enabled) is Some <==> (enabled.contains(
            FeatureFlag::GeminiNotifications,
        ) && enabled.contains(FeatureFlag::HOANotifications)),
        manager_kind_for(CLIAgent::Walcode, enabled) is Some <==> (enabled.contains(
            FeatureFlag::WalcodeNotifications,
        ) && enabled.contains(FeatureFlag::HOANotifications)),
        manager_kind_for(CLIAgent::Zeroclaw, enabled) is Some <==> (enabled.contains(
            FeatureFlag::ZeroclawNotifications,
        ) && enabled.contains(FeatureFlag::HOANotifications)),
        manager_kind_for(CLIAgent::OpenCode, enabled) is Some ==> manager_kind_for(CLIAgent::OpenCode, enabled)
            == Some(PluginManagerKind::OpenCode),
        manager_kind_for(CLIAgent::Codex, enabled) is Some ==> manager_kind_for(CLIAgent::Codex, enabled)
            == Some(PluginManagerKind::Codex),
        manager_kind_for(CLIAgent::Gemini, enabled) is Some ==> manager_kind_for(CLIAgent::Gemini, enabled)
            == Some(PluginManagerKind::Gemini),
        manager_kind_for(CLIAgent::Walcode, enabled) is Some ==> manager_kind_for(CLIAgent::Walcode, enabled)
            == Some(PluginManagerKind::Walcode),
        manager_kind_for(CLIAgent::Zeroclaw, enabled) is Some ==> manager_kind_for(CLIAgent::Zeroclaw, enabled)
            == Some(PluginManagerKind::Zeroclaw),
        manager_kind_for(CLIAgent::Claude, enabled) == Some(PluginManagerKind::ClaudeCode),
{
}

} // verus!
