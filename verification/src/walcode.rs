//! The plugin manager for Walcode, whose binary is `claw`: the Warp plugin
//! lives at `<claw home>/plugins/walcode-warp/plugin.json`, a JSON manifest
//! with a `name` and a `version`.
//!
//! Reading files and environment variables is left to the caller: the
//! functions here take what was read (`None` where nothing could be read).

use vstd::prelude::*;
use crate::config::{json_document, parse_json, text_field, text_field_of, ConfigValue};
use crate::paths::{agent_home_dir, join_path, path_exists, path_join, HomeDirError};
use crate::plugin::{
    build_command, command_env_matches, still_outdated, subcommand_args, update_outcome, CliCommand,
    CommandExecutor, PluginInstallError, PluginInstructionStep, PluginInstructions, ShellType,
};
use crate::text::opt_str_view;
use crate::version::{
    is_older, lemma_below_is_lexicographic, lemma_version_0_1_0, lexicographically_less, reads_as_u32,
    split_dots, version_below, version_numbers,
};

verus! {

/// The Walcode binary.
pub const CLAW_BINARY: &'static str = "claw";

/// The package the plugin is installed from.
pub const PLUGIN_PACKAGE: &'static str = "@warp-dot-dev/walcode-warp";

/// The plugin's name under `plugins/`.
pub const PLUGIN_NAME: &'static str = "walcode-warp";

/// The oldest plugin version this manager accepts.
pub const MINIMUM_PLUGIN_VERSION: &'static str = "0.1.0";

/// Manages the Warp plugin of Walcode.
pub struct WalcodePluginManager {
    pub executor: CommandExecutor,
    pub path_env_var: Option<String>,
}

/// Where the plugin manifest sits under `claw_dir`.
pub open spec fn manifest_location(claw_dir: Seq<char>) -> Seq<char> {
    path_join(path_join(path_join(claw_dir, "plugins"@), PLUGIN_NAME@), "plugin.json"@)
}

/// What the manifest text parses to, where there is a text and it is JSON.
pub open spec fn manifest_document(text: Option<Seq<char>>) -> Option<ConfigValue> {
    match text {
        Some(t) => json_document(t),
        None => None,
    }
}

/// The version the manifest text records.
pub open spec fn manifest_version(text: Option<Seq<char>>) -> Option<Seq<char>> {
    text_field(manifest_document(text), "version"@)
}

/// The plugin counts as installed: its manifest parses and records both a
/// `name` and a `version` as strings.
pub open spec fn manifest_installed(text: Option<Seq<char>>) -> bool {
    &&& text_field(manifest_document(text), "name"@) is Some
    &&& manifest_version(text) is Some
}

/// The plugin needs an update: the version it records is below the
/// minimum; where it records none, whether a manifest file exists at all.
pub open spec fn update_needed(text: Option<Seq<char>>, manifest_exists: bool) -> bool {
    match manifest_version(text) {
        Some(v) => version_below(v, MINIMUM_PLUGIN_VERSION@),
        None => manifest_exists,
    }
}

impl WalcodePluginManager {
    /// A manager whose commands run in the given shell (bash where none is
    /// given), with `PATH` set to `path_env_var` where there is one.
    pub fn new(shell_path: Option<String>, shell_type: Option<ShellType>, path_env_var: Option<
        String,
    >) -> (r: Self)
        ensures
            r.executor.shell_path == shell_path,
            r.executor.shell_type == (match shell_type {
                Some(t) => t,
                None => ShellType::Bash,
            }),
            r.path_env_var == path_env_var,
    {
        let shell_type = match shell_type {
            Some(t) => t,
            None => ShellType::Bash,
        };
        WalcodePluginManager { executor: CommandExecutor::new(shell_path, shell_type), path_env_var }
    }

    /// The `claw` command line with `args`, run through this manager's
    /// executor with its `PATH`.
    pub fn command(&self, args: Vec<String>) -> (r: CliCommand)
        ensures
            r.executor == self.executor,
            r.program@ == CLAW_BINARY@,
            r.args@ == args@,
            command_env_matches(r.env, self.path_env_var),
    {
        build_command(&self.executor, CLAW_BINARY, args, &self.path_env_var)
    }

    /// `claw plugins install @warp-dot-dev/walcode-warp`.
    pub fn install_command(&self) -> (r: CliCommand)
        ensures
            r.executor == self.executor,
            r.program@ == CLAW_BINARY@,
            r.args@.len() == 3,
            r.args@[0]@ == "plugins"@,
            r.args@[1]@ == "install"@,
            r.args@[2]@ == PLUGIN_PACKAGE@,
            command_env_matches(r.env, self.path_env_var),
    {
        self.command(subcommand_args("plugins", "install", PLUGIN_PACKAGE))
    }

    /// `claw plugins update walcode-warp`.
    pub fn update_command(&self) -> (r: CliCommand)
        ensures
            r.executor == self.executor,
            r.program@ == CLAW_BINARY@,
            r.args@.len() == 3,
            r.args@[0]@ == "plugins"@,
            r.args@[1]@ == "update"@,
            r.args@[2]@ == PLUGIN_NAME@,
            command_env_matches(r.env, self.path_env_var),
    {
        self.command(subcommand_args("plugins", "update", PLUGIN_NAME))
    }

    /// The oldest plugin version accepted.
    pub fn minimum_plugin_version(&self) -> (r: &'static str)
        ensures
            r@ == MINIMUM_PLUGIN_VERSION@,
    {
        MINIMUM_PLUGIN_VERSION
    }

    /// Walcode's plugin can be installed without the user's help.
    pub fn can_auto_install(&self) -> (r: bool)
        ensures
            r,
    {
        true
    }

    /// The plugin is installed, judged by the text of its manifest (`None`
    /// where the home directory is unknown or the manifest unreadable).
    pub fn is_installed(&self, manifest_text: Option<&str>) -> (r: bool)
        ensures
            r == manifest_installed(opt_str_view(manifest_text)),
    {
        check_installed(manifest_text)
    }

    /// The plugin needs an update, judged by the text of its manifest and
    /// whether the manifest file exists (`None` and `false` where the home
    /// directory is unknown).
    pub fn needs_update(&self, manifest_text: Option<&str>, manifest_exists: bool) -> (r: bool)
        ensures
            r == update_needed(opt_str_view(manifest_text), manifest_exists),
    {
        match installed_version(manifest_text) {
            Some(v) => is_older(v.as_str(), MINIMUM_PLUGIN_VERSION),
            None => manifest_exists,
        }
    }

    /// The outcome of `claw plugins update`: the command's own error where
    /// it failed (`run`); otherwise an error where the manifest read
    /// afterwards (`manifest_text`) still records no version, or one below
    /// the minimum; success otherwise.
    pub fn finish_update(
        &self,
        run: Result<String, PluginInstallError>,
        manifest_text: Option<&str>,
    ) -> (r: Result<(), PluginInstallError>)
        ensures
            match run {
                Err(e) => r == Err::<(), PluginInstallError>(e),
                Ok(log) => if still_outdated(
                    manifest_version(opt_str_view(manifest_text)),
                    MINIMUM_PLUGIN_VERSION@,
                ) {
                    r matches Err(e) && e.message@ == "Plugin update did not take effect"@
                        && e.log@ == log@ + "Post-update version check: plugin is still outdated\n"@
                } else {
                    r is Ok
                },
            },
    {
        let installed = installed_version(manifest_text);
        update_outcome(
            run,
            installed,
            MINIMUM_PLUGIN_VERSION,
            "Post-update version check: plugin is still outdated\n",
            "Plugin update did not take effect",
        )
    }

    /// Shown once the plugin is installed.
    pub fn install_success_message(&self) -> (r: &'static str)
        ensures
            r@ == "Warp plugin installed. Please restart `claw` to activate."@,
    {
        "Warp plugin installed. Please restart `claw` to activate."
    }

    /// Shown once the plugin is updated.
    pub fn update_success_message(&self) -> (r: &'static str)
        ensures
            r@ == "Warp plugin updated. Please restart `claw` to activate."@,
    {
        "Warp plugin updated. Please restart `claw` to activate."
    }

    /// The manual install instructions.
    pub fn install_instructions(&self) -> (r: PluginInstructions)
        ensures
            r.title@ == "Install Warp Plugin for Walcode (claw)"@,
            r.subtitle@
                == "Walcode is invoked as `claw`. Install the Warp plugin into ~/.claw/plugins/, then restart claw."@,
            r.steps@.len() == 2,
            r.steps@[0].description@ == "Install the Warp plugin"@,
            r.steps@[0].command@ == "claw plugins install @warp-dot-dev/walcode-warp"@,
            r.steps@[0].executable,
            r.steps@[0].link is None,
            r.steps@[1].description@
                == "Optional: enable Warp notifications block in your settings file"@,
            r.steps@[1].command@ == "~/.claw/settings.json"@,
            !r.steps@[1].executable,
            r.steps@[1].link is None,
            r.post_install_notes@.len() == 2,
            r.post_install_notes@[0]@ == "Restart claw to activate the plugin."@,
            r.post_install_notes@[1]@
                == "If `claw plugins install` is unavailable in your build, drop the plugin into ~/.claw/plugins/walcode-warp/."@,
    {
        let mut steps: Vec<PluginInstructionStep> = Vec::new();
        steps.push(
            PluginInstructionStep {
                description: "Install the Warp plugin",
                command: "claw plugins install @warp-dot-dev/walcode-warp",
                executable: true,
                link: None,
            },
        );
        steps.push(
            PluginInstructionStep {
                description: "Optional: enable Warp notifications block in your settings file",
                command: "~/.claw/settings.json",
                executable: false,
                link: None,
            },
        );
        let mut notes: Vec<&'static str> = Vec::new();
        notes.push("Restart claw to activate the plugin.");
        notes.push(
            "If `claw plugins install` is unavailable in your build, drop the plugin into ~/.claw/plugins/walcode-warp/.",
        );
        PluginInstructions {
            title: "Install Warp Plugin for Walcode (claw)",
            subtitle: "Walcode is invoked as `claw`. Install the Warp plugin into ~/.claw/plugins/, then restart claw.",
            steps,
            post_install_notes: notes,
        }
    }

    /// The manual update instructions.
    pub fn update_instructions(&self) -> (r: PluginInstructions)
        ensures
            r.title@ == "Update Warp Plugin for Walcode (claw)"@,
            r.subtitle@ == "Run the following command, then restart claw."@,
            r.steps@.len() == 1,
            r.steps@[0].description@ == "Update the Warp plugin"@,
            r.steps@[0].command@ == "claw plugins update walcode-warp"@,
            r.steps@[0].executable,
            r.steps@[0].link is None,
            r.post_install_notes@.len() == 1,
            r.post_install_notes@[0]@ == "Restart claw to activate the update."@,
    {
        let mut steps: Vec<PluginInstructionStep> = Vec::new();
        steps.push(
            PluginInstructionStep {
                description: "Update the Warp plugin",
                command: "claw plugins update walcode-warp",
                executable: true,
                link: None,
            },
        );
        let mut notes: Vec<&'static str> = Vec::new();
        notes.push("Restart claw to activate the update.");
        PluginInstructions {
            title: "Update Warp Plugin for Walcode (claw)",
            subtitle: "Run the following command, then restart claw.",
            steps,
            post_install_notes: notes,
        }
    }
}

/// The path of the plugin manifest under `claw_dir`:
/// `<claw_dir>/plugins/walcode-warp/plugin.json`.
pub fn manifest_path(claw_dir: &str) -> (r: String)
    ensures
        r@ == manifest_location(claw_dir@),
{
    let plugins = join_path(claw_dir, "plugins");
    let plugin = join_path(plugins.as_str(), PLUGIN_NAME);
    join_path(plugin.as_str(), "plugin.json")
}

/// Whether a plugin manifest exists under `claw_dir`; the answer comes from
/// the file system.
pub fn plugin_manifest_exists(claw_dir: &str) -> (r: bool) {
    let path = manifest_path(claw_dir);
    path_exists(path.as_str())
}

/// The manifest, parsed from its text (`None` where there is no text or it
/// is not JSON).
pub fn read_manifest(manifest_text: Option<&str>) -> (r: Option<ConfigValue>)
    ensures
        r == manifest_document(opt_str_view(manifest_text)),
{
    match manifest_text {
        Some(text) => parse_json(text),
        None => None,
    }
}

/// The plugin is installed: its manifest parses and records both a `name`
/// and a `version` as strings.
pub fn check_installed(manifest_text: Option<&str>) -> (r: bool)
    ensures
        r == manifest_installed(opt_str_view(manifest_text)),
{
    let parsed = match read_manifest(manifest_text) {
        Some(doc) => doc,
        None => return false,
    };
    text_field_of(&parsed, "name").is_some() && text_field_of(&parsed, "version").is_some()
}

/// The version the manifest records, where it parses and holds a string
/// `version`.
pub fn installed_version(manifest_text: Option<&str>) -> (r: Option<String>)
    ensures
        match r {
            Some(v) => manifest_version(opt_str_view(manifest_text)) == Some(v@),
            None => manifest_version(opt_str_view(manifest_text)) is None,
        },
{
    let parsed = read_manifest(manifest_text)?;
    text_field_of(&parsed, "version")
}

/// Walcode's home directory: `custom_home` (the `CLAW_HOME` variable) where
/// it is set, else `.claw` in the user's home directory.
pub fn walcode_home_dir(custom_home: Option<String>) -> (r: Result<String, HomeDirError>)
    ensures
        custom_home matches Some(c) ==> (r matches Ok(s) && s@ == c@),
        custom_home is None ==> (r matches Ok(s) ==> exists|h: Seq<char>|
            path_join(h, ".claw"@) == #[trigger] s@),
{
    agent_home_dir(custom_home, ".claw")
}

/// The manifest sits at `<claw_dir>/plugins/walcode-warp/plugin.json`.
pub proof fn lemma_manifest_location(claw_dir: Seq<char>)
    requires
        claw_dir.len() > 0,
        claw_dir.last() != '/',
    ensures
        manifest_location(claw_dir) == claw_dir + "/plugins/walcode-warp/plugin.json"@,
{
    reveal_strlit("plugins");
    reveal_strlit("walcode-warp");
    reveal_strlit("plugin.json");
    reveal_strlit("/plugins/walcode-warp/plugin.json");
    let a = path_join(claw_dir, "plugins"@);
    assert(a == claw_dir + seq!['/'] + "plugins"@);
    assert(a.last() == 's');
    let b = path_join(a, PLUGIN_NAME@);
    assert(b == a + seq!['/'] + "walcode-warp"@);
    assert(b.last() == 'p');
    assert(path_join(b, "plugin.json"@) == b + seq!['/'] + "plugin.json"@);
    assert(path_join(b, "plugin.json"@) =~= claw_dir + "/plugins/walcode-warp/plugin.json"@);
}

/// A manifest that counts as installed records a version, so whether an
/// update is needed turns on that version alone.
pub proof fn lemma_installed_has_version(text: Option<Seq<char>>, manifest_exists: bool)
    requires
        manifest_installed(text),
    ensures
        manifest_version(text) is Some,
        update_needed(text, manifest_exists) == version_below(
            manifest_version(text)->0,
            MINIMUM_PLUGIN_VERSION@,
        ),
{
}

/// An update that passed its version check leaves nothing to update: with
/// the same manifest, no update is needed.
pub proof fn lemma_checked_update_is_current(text: Option<Seq<char>>, manifest_exists: bool)
    requires
        !still_outdated(manifest_version(text), MINIMUM_PLUGIN_VERSION@),
    ensures
        !update_needed(text, manifest_exists),
{
}

/// An update is only ever asked for where the manifest file exists, given
/// that a manifest that could be read exists.
pub proof fn lemma_update_needs_existing_manifest(text: Option<Seq<char>>, manifest_exists: bool)
    requires
        text is Some ==> manifest_exists,
    ensures
        update_needed(text, manifest_exists) ==> manifest_exists,
{
}

/// A manifest that can be read but records no version asks for an update
/// exactly when the manifest file exists.
pub proof fn lemma_versionless_manifest(text: Option<Seq<char>>, manifest_exists: bool)
    requires
        manifest_version(text) is None,
    ensures
        update_needed(text, manifest_exists) == manifest_exists,
        still_outdated(manifest_version(text), MINIMUM_PLUGIN_VERSION@),
{
}

/// The minimum version is a full `major.minor.patch` version: three
/// pieces, each a number.
pub proof fn lemma_minimum_version_is_semver()
    ensures
        split_dots(MINIMUM_PLUGIN_VERSION@).len() == 3,
        forall|k: int| 0 <= k < 3 ==> #[trigger] reads_as_u32(split_dots(MINIMUM_PLUGIN_VERSION@)[k]),
{
    lemma_version_0_1_0();
}

/// Where the manifest records a version, that version alone decides: an
/// update is needed exactly when it comes strictly before the minimum in
/// `(major, minor, patch)` order, whether or not the file is reported to
/// exist.
pub proof fn lemma_recorded_version_decides(text: Option<Seq<char>>, exists_a: bool, exists_b: bool)
    requires
        manifest_version(text) is Some,
    ensures
        update_needed(text, exists_a) == update_needed(text, exists_b),
        update_needed(text, exists_a) <==> lexicographically_less(
            version_numbers(manifest_version(text)->0),
            version_numbers(MINIMUM_PLUGIN_VERSION@),
        ),
{
    lemma_below_is_lexicographic(manifest_version(text)->0, MINIMUM_PLUGIN_VERSION@);
}

/// The plugin counts as installed exactly when the manifest is a JSON
/// object holding a string under `name` and a string under `version`.
pub proof fn lemma_installed_needs_name_and_version(text: Option<Seq<char>>)
    ensures
        manifest_installed(text) <==> (text matches Some(t) && json_document(t) matches Some(doc)
            && doc.lookup("name"@) matches Some(ConfigValue::Text(_))
            && doc.lookup("version"@) matches Some(ConfigValue::Text(_))),
{
}

} // verus!
