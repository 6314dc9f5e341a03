//! The plugin manager for ZeroClaw: the Warp integration is a channel
//! adapter, enabled in `<zeroclaw home>/config.toml` under
//! `[channels.warp] enabled = true`, whose version is recorded in
//! `<zeroclaw home>/channels/warp/manifest.toml`.
//!
//! Reading files and environment variables is left to the caller: the
//! functions here take what was read (`None` where nothing could be read).

use vstd::prelude::*;
use crate::config::{parse_toml, text_field, text_field_of, toml_document, ConfigValue};
use crate::paths::{agent_home_dir, join_path, path_join, HomeDirError};
use crate::plugin::{
    build_command, command_env_matches, still_outdated, subcommand_args, update_outcome, CliCommand,
    CommandExecutor, PluginInstallError, PluginInstructionStep, PluginInstructions, ShellType,
};
use crate::text::opt_str_view;
use crate::version::{
    is_older, lemma_below_is_lexicographic, lemma_version_0_1_0, lexicographically_less, reads_as_u32,
    split_dots, version_below, version_numbers,
};

verus! {

/// The ZeroClaw binary.
pub const ZEROCLAW_BINARY: &'static str = "zeroclaw";

/// The name of the Warp channel adapter.
pub const CHANNEL_NAME: &'static str = "warp";

/// The oldest channel adapter version this manager accepts.
pub const MINIMUM_PLUGIN_VERSION: &'static str = "0.1.0";

/// Manages the Warp channel adapter of ZeroClaw.
pub struct ZeroclawPluginManager {
    pub executor: CommandExecutor,
    pub path_env_var: Option<String>,
}

/// Where ZeroClaw's configuration sits under `dir`.
pub open spec fn config_location(dir: Seq<char>) -> Seq<char> {
    path_join(dir, "config.toml"@)
}

/// Where the channel adapter's manifest sits under `dir`.
pub open spec fn channel_manifest_location(dir: Seq<char>) -> Seq<char> {
    path_join(path_join(path_join(dir, "channels"@), CHANNEL_NAME@), "manifest.toml"@)
}

/// What a TOML text parses to, where there is a text and it is TOML.
pub open spec fn toml_text_document(text: Option<Seq<char>>) -> Option<ConfigValue> {
    match text {
        Some(t) => toml_document(t),
        None => None,
    }
}

/// The configuration enables the channel: `channels.warp.enabled` is the
/// boolean `true`.
pub open spec fn channel_enabled(config_text: Option<Seq<char>>) -> bool {
    match toml_text_document(config_text) {
        Some(doc) => match doc.lookup("channels"@) {
            Some(channels) => match channels.lookup(CHANNEL_NAME@) {
                Some(channel) => match channel.lookup("enabled"@) {
                    Some(enabled) => enabled.flag_view() == Some(true),
                    None => false,
                },
                None => false,
            },
            None => false,
        },
        None => false,
    }
}

/// The version the channel manifest records.
pub open spec fn channel_version(manifest_text: Option<Seq<char>>) -> Option<Seq<char>> {
    text_field(toml_text_document(manifest_text), "version"@)
}

/// The channel needs an update: the version its manifest records is below
/// the minimum; where it records none, whether the channel is enabled.
pub open spec fn update_needed(manifest_text: Option<Seq<char>>, config_text: Option<Seq<char>>) -> bool {
    match channel_version(manifest_text) {
        Some(v) => version_below(v, MINIMUM_PLUGIN_VERSION@),
        None => channel_enabled(config_text),
    }
}

impl ZeroclawPluginManager {
    /// A manager whose commands run in the given shell (bash where none is
    /// given), with `PATH` set to `path_env_var` where there is one.
    pub fn new(shell_path: Option<String>, shell_type: Option<ShellType>, path_env_var: Option<
        String,
    >) -> (r: Self)
        ensures
            r.executor.shell_path == shell_path,
            r.executor.shell_type == (match shell_type {
                Some(t) => t,
                None => ShellType::Bash,
            }),
            r.path_env_var == path_env_var,
    {
        let shell_type = match shell_type {
            Some(t) => t,
            None => ShellType::Bash,
        };
        ZeroclawPluginManager { executor: CommandExecutor::new(shell_path, shell_type), path_env_var }
    }

    /// The `zeroclaw` command line with `args`, run through this manager's
    /// executor with its `PATH`.
    pub fn command(&self, args: Vec<String>) -> (r: CliCommand)
        ensures
            r.executor == self.executor,
            r.program@ == ZEROCLAW_BINARY@,
            r.args@ == args@,
            command_env_matches(r.env, self.path_env_var),
    {
        build_command(&self.executor, ZEROCLAW_BINARY, args, &self.path_env_var)
    }

    /// `zeroclaw channels enable warp`: ZeroClaw talks ACP (JSON-RPC over
    /// stdio), and the enabled warp adapter listens on the same transport.
    pub fn install_command(&self) -> (r: CliCommand)
        ensures
            r.executor == self.executor,
            r.program@ == ZEROCLAW_BINARY@,
            r.args@.len() == 3,
            r.args@[0]@ == "channels"@,
            r.args@[1]@ == "enable"@,
            r.args@[2]@ == CHANNEL_NAME@,
            command_env_matches(r.env, self.path_env_var),
    {
        self.command(subcommand_args("channels", "enable", CHANNEL_NAME))
    }

    /// `zeroclaw channels update warp`.
    pub fn update_command(&self) -> (r: CliCommand)
        ensures
            r.executor == self.executor,
            r.program@ == ZEROCLAW_BINARY@,
            r.args@.len() == 3,
            r.args@[0]@ == "channels"@,
            r.args@[1]@ == "update"@,
            r.args@[2]@ == CHANNEL_NAME@,
            command_env_matches(r.env, self.path_env_var),
    {
        self.command(subcommand_args("channels", "update", CHANNEL_NAME))
    }

    /// The oldest channel adapter version accepted.
    pub fn minimum_plugin_version(&self) -> (r: &'static str)
        ensures
            r@ == MINIMUM_PLUGIN_VERSION@,
    {
        MINIMUM_PLUGIN_VERSION
    }

    /// ZeroClaw's channel can be enabled without the user's help.
    pub fn can_auto_install(&self) -> (r: bool)
        ensures
            r,
    {
        true
    }

    /// The channel is installed, judged by the text of ZeroClaw's
    /// configuration (`None` where the home directory is unknown or the file
    /// unreadable).
    pub fn is_installed(&self, config_text: Option<&str>) -> (r: bool)
        ensures
            r == channel_enabled(opt_str_view(config_text)),
    {
        check_installed(config_text)
    }

    /// The channel needs an update, judged by the text of its manifest and
    /// of ZeroClaw's configuration (both `None` where the home directory is
    /// unknown).
    pub fn needs_update(&self, manifest_text: Option<&str>, config_text: Option<&str>) -> (r: bool)
        ensures
            r == update_needed(opt_str_view(manifest_text), opt_str_view(config_text)),
    {
        match installed_version(manifest_text) {
            Some(v) => is_older(v.as_str(), MINIMUM_PLUGIN_VERSION),
            None => check_installed(config_text),
        }
    }

    /// The outcome of `zeroclaw channels update`: the command's own error
    /// where it failed (`run`); otherwise an error where the manifest read
    /// afterwards (`manifest_text`) still records no version, or one below
    /// the minimum; success otherwise.
    pub fn finish_update(
        &self,
        run: Result<String, PluginInstallError>,
        manifest_text: Option<&str>,
    ) -> (r: Result<(), PluginInstallError>)
        ensures
            match run {
                Err(e) => r == Err::<(), PluginInstallError>(e),
                Ok(log) => if still_outdated(
                    channel_version(opt_str_view(manifest_text)),
                    MINIMUM_PLUGIN_VERSION@,
                ) {
                    r matches Err(e) && e.message@ == "Channel update did not take effect"@
                        && e.log@ == log@ + "Post-update version check: channel is still outdated\n"@
                } else {
                    r is Ok
                },
            },
    {
        let installed = installed_version(manifest_text);
        update_outcome(
            run,
            installed,
            MINIMUM_PLUGIN_VERSION,
            "Post-update version check: channel is still outdated\n",
            "Channel update did not take effect",
        )
    }

    /// Shown once the channel is enabled.
    pub fn install_success_message(&self) -> (r: &'static str)
        ensures
            r@ == "Warp channel enabled. Please restart zeroclaw to activate."@,
    {
        "Warp channel enabled. Please restart zeroclaw to activate."
    }

    /// Shown once the channel is updated.
    pub fn update_success_message(&self) -> (r: &'static str)
        ensures
            r@ == "Warp channel updated. Please restart zeroclaw to activate."@,
    {
        "Warp channel updated. Please restart zeroclaw to activate."
    }

    /// The manual install instructions.
    pub fn install_instructions(&self) -> (r: PluginInstructions)
        ensures
            r.title@ == "Enable Warp Channel for ZeroClaw"@,
            r.subtitle@
                == "ZeroClaw uses an ACP (Agent Client Protocol) channel system. Enable the warp channel adapter, then restart zeroclaw."@,
            r.steps@.len() == 2,
            r.steps@[0].description@ == "Enable the warp channel adapter"@,
            r.steps@[0].command@ == "zeroclaw channels enable warp"@,
            r.steps@[0].executable,
            r.steps@[0].link is None,
            r.steps@[1].description@
                == "Optional: edit ZeroClaw config to set notification preferences"@,
            r.steps@[1].command@ == "~/.zeroclaw/config.toml"@,
            !r.steps@[1].executable,
            r.steps@[1].link is None,
            r.post_install_notes@.len() == 2,
            r.post_install_notes@[0]@ == "Restart zeroclaw to load the channel."@,
            r.post_install_notes@[1]@
                == "If `zeroclaw channels` is unavailable, add `[channels.warp] enabled = true` to ~/.zeroclaw/config.toml manually."@,
    {
        let mut steps: Vec<PluginInstructionStep> = Vec::new();
        steps.push(
            PluginInstructionStep {
                description: "Enable the warp channel adapter",
                command: "zeroclaw channels enable warp",
                executable: true,
                link: None,
            },
        );
        steps.push(
            PluginInstructionStep {
                description: "Optional: edit ZeroClaw config to set notification preferences",
                command: "~/.zeroclaw/config.toml",
                executable: false,
                link: None,
            },
        );
        let mut notes: Vec<&'static str> = Vec::new();
        notes.push("Restart zeroclaw to load the channel.");
        notes.push(
            "If `zeroclaw channels` is unavailable, add `[channels.warp] enabled = true` to ~/.zeroclaw/config.toml manually.",
        );
        PluginInstructions {
            title: "Enable Warp Channel for ZeroClaw",
            subtitle: "ZeroClaw uses an ACP (Agent Client Protocol) channel system. Enable the warp channel adapter, then restart zeroclaw.",
            steps,
            post_install_notes: notes,
        }
    }

    /// The manual update instructions.
    pub fn update_instructions(&self) -> (r: PluginInstructions)
        ensures
            r.title@ == "Update Warp Channel for ZeroClaw"@,
            r.subtitle@ == "Run the following command, then restart zeroclaw."@,
            r.steps@.len() == 1,
            r.steps@[0].description@ == "Update the warp channel"@,
            r.steps@[0].command@ == "zeroclaw channels update warp"@,
            r.steps@[0].executable,
            r.steps@[0].link is None,
            r.post_install_notes@.len() == 1,
            r.post_install_notes@[0]@ == "Restart zeroclaw to activate the update."@,
    {
        let mut steps: Vec<PluginInstructionStep> = Vec::new();
        steps.push(
            PluginInstructionStep {
                description: "Update the warp channel",
                command: "zeroclaw channels update warp",
                executable: true,
                link: None,
            },
        );
        let mut notes: Vec<&'static str> = Vec::new();
        notes.push("Restart zeroclaw to activate the update.");
        PluginInstructions {
            title: "Update Warp Channel for ZeroClaw",
            subtitle: "Run the following command, then restart zeroclaw.",
            steps,
            post_install_notes: notes,
        }
    }
}

/// A manager with the default shell and no `PATH` override.
pub fn manager() -> (r: ZeroclawPluginManager)
    ensures
        r.executor.shell_path is None,
        r.executor.shell_type == ShellType::Bash,
        r.path_env_var is None,
{
    ZeroclawPluginManager::new(None, None, None)
}

/// The path of ZeroClaw's configuration under `dir`: `<dir>/config.toml`.
pub fn config_path(dir: &str) -> (r: String)
    ensures
        r@ == config_location(dir@),
{
    join_path(dir, "config.toml")
}

/// The path of the channel manifest under `dir`:
/// `<dir>/channels/warp/manifest.toml`.
pub fn channel_manifest_path(dir: &str) -> (r: String)
    ensures
        r@ == channel_manifest_location(dir@),
{
    let channels = join_path(dir, "channels");
    let channel = join_path(channels.as_str(), CHANNEL_NAME);
    join_path(channel.as_str(), "manifest.toml")
}

/// A TOML text, parsed (`None` where there is no text or it is not TOML).
pub fn read_toml(text: Option<&str>) -> (r: Option<ConfigValue>)
    ensures
        r == toml_text_document(opt_str_view(text)),
{
    match text {
        Some(t) => parse_toml(t),
        None => None,
    }
}

/// The channel is installed: ZeroClaw's configuration parses and sets
/// `channels.warp.enabled` to `true`.
pub fn check_installed(config_text: Option<&str>) -> (r: bool)
    ensures
        r == channel_enabled(opt_str_view(config_text)),
{
    let parsed = match read_toml(config_text) {
        Some(doc) => doc,
        None => return false,
    };
    let channels = match parsed.get("channels") {
        Some(c) => c,
        None => return false,
    };
    let channel = match channels.get(CHANNEL_NAME) {
        Some(c) => c,
        None => return false,
    };
    match channel.get("enabled") {
        Some(enabled) => match enabled.flag() {
            Some(b) => b,
            None => false,
        },
        None => false,
    }
}

/// The version the channel manifest records, where it parses and holds a
/// string `version`.
pub fn installed_version(manifest_text: Option<&str>) -> (r: Option<String>)
    ensures
        match r {
            Some(v) => channel_version(opt_str_view(manifest_text)) == Some(v@),
            None => channel_version(opt_str_view(manifest_text)) is None,
        },
{
    let parsed = read_toml(manifest_text)?;
    text_field_of(&parsed, "version")
}

/// ZeroClaw's home directory: `custom_home` (the `ZEROCLAW_HOME` variable)
/// where it is set, else `.zeroclaw` in the user's home directory.
pub fn zeroclaw_home_dir(custom_home: Option<String>) -> (r: Result<String, HomeDirError>)
    ensures
        custom_home matches Some(c) ==> (r matches Ok(s) && s@ == c@),
        custom_home is None ==> (r matches Ok(s) ==> exists|h: Seq<char>|
            path_join(h, ".zeroclaw"@) == #[trigger] s@),
{
    agent_home_dir(custom_home, ".zeroclaw")
}

/// ZeroClaw's files sit at `<dir>/config.toml` and
/// `<dir>/channels/warp/manifest.toml`.
pub proof fn lemma_file_locations(dir: Seq<char>)
    requires
        dir.len() > 0,
        dir.last() != '/',
    ensures
        config_location(dir) == dir + "/config.toml"@,
        channel_manifest_location(dir) == dir + "/channels/warp/manifest.toml"@,
{
    reveal_strlit("config.toml");
    reveal_strlit("/config.toml");
    reveal_strlit("channels");
    reveal_strlit("warp");
    reveal_strlit("manifest.toml");
    reveal_strlit("/channels/warp/manifest.toml");
    assert(config_location(dir) =~= dir + "/config.toml"@);
    let a = path_join(dir, "channels"@);
    assert(a == dir + seq!['/'] + "channels"@);
    assert(a.last() == 's');
    let b = path_join(a, CHANNEL_NAME@);
    assert(b == a + seq!['/'] + "warp"@);
    assert(b.last() == 'p');
    assert(path_join(b, "manifest.toml"@) == b + seq!['/'] + "manifest.toml"@);
    assert(path_join(b, "manifest.toml"@) =~= dir + "/channels/warp/manifest.toml"@);
}

/// An update that passed its version check leaves nothing to update: with
/// the same manifest, no update is needed, whatever the configuration says.
pub proof fn lemma_checked_update_is_current(
    manifest_text: Option<Seq<char>>,
    config_text: Option<Seq<char>>,
)
    requires
        !still_outdated(channel_version(manifest_text), MINIMUM_PLUGIN_VERSION@),
    ensures
        !update_needed(manifest_text, config_text),
{
}

/// Without a readable channel version, an update is asked for exactly when
/// the channel is enabled.
pub proof fn lemma_versionless_channel(manifest_text: Option<Seq<char>>, config_text: Option<Seq<char>>)
    requires
        channel_version(manifest_text) is None,
    ensures
        update_needed(manifest_text, config_text) == channel_enabled(config_text),
        still_outdated(channel_version(manifest_text), MINIMUM_PLUGIN_VERSION@),
{
}

/// The minimum version is a full `major.minor.patch` version: three
/// pieces, each a number.
pub proof fn lemma_minimum_version_is_semver()
    ensures
        split_dots(MINIMUM_PLUGIN_VERSION@).len() == 3,
        forall|k: int| 0 <= k < 3 ==> #[trigger] reads_as_u32(split_dots(MINIMUM_PLUGIN_VERSION@)[k]),
{
    lemma_version_0_1_0();
}

/// Where the channel manifest records a version, that version alone
/// decides: an update is needed exactly when it comes strictly before the
/// minimum in `(major, minor, patch)` order, whatever the configuration says.
pub proof fn lemma_recorded_version_decides(
    manifest_text: Option<Seq<char>>,
    config_a: Option<Seq<char>>,
    config_b: Option<Seq<char>>,
)
    requires
        channel_version(manifest_text) is Some,
    ensures
        update_needed(manifest_text, config_a) == update_needed(manifest_text, config_b),
        update_needed(manifest_text, config_a) <==> lexicographically_less(
            version_numbers(channel_version(manifest_text)->0),
            version_numbers(MINIMUM_PLUGIN_VERSION@),
        ),
{
    lemma_below_is_lexicographic(channel_version(manifest_text)->0, MINIMUM_PLUGIN_VERSION@);
}

/// The channel counts as enabled exactly when the configuration is a TOML
/// document whose `channels` table holds a `warp` table whose `enabled` key
/// is the boolean `true`; a missing key, table or document, or any other
/// value, leaves it disabled.
pub proof fn lemma_channel_enabled_needs_true_flag(config_text: Option<Seq<char>>)
    ensures
        channel_enabled(config_text) <==> (config_text matches Some(t) && toml_document(t) matches Some(doc)
            && doc.lookup("channels"@) matches Some(channels) && channels.lookup("warp"@) matches Some(channel)
            && channel.lookup("enabled"@) == Some(ConfigValue::Flag(true))),
{
    reveal_strlit("warp");
    assert(CHANNEL_NAME@ == "warp"@);
}

} // verus!
