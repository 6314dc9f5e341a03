//! What every agent's plugin manager shares: the command it hands to the
//! shell, the instructions it shows, the error of a failed install or update,
//! and the check that follows an update.

use vstd::prelude::*;
use crate::version::{
    is_older, lemma_below_is_lexicographic, lexicographically_less, version_below, version_numbers,
};

verus! {

/// The shell a manager runs its commands in.
#[derive(Debug, PartialEq, Eq, Structural, Clone, Copy)]
pub enum ShellType {
    Bash,
    Zsh,
    Fish,
    PowerShell,
}

/// Runs commands on this machine: the shell binary to use (the default one
/// where `None`) and the kind of shell it is.
pub struct CommandExecutor {
    pub shell_path: Option<String>,
    pub shell_type: ShellType,
}

impl CommandExecutor {
    /// An executor for the given shell.
    pub fn new(shell_path: Option<String>, shell_type: ShellType) -> (r: Self)
        ensures
            r.shell_path == shell_path,
            r.shell_type == shell_type,
    {
        CommandExecutor { shell_path, shell_type }
    }

    /// A copy of this executor: the same shell binary and shell kind.
    pub fn duplicate(&self) -> (r: Self)
        ensures
            r == *self,
    {
        let shell_path = match &self.shell_path {
            Some(p) => Some(p.clone()),
            None => None,
        };
        CommandExecutor { shell_path, shell_type: self.shell_type }
    }
}

/// A command line to run: the executor (shell) to run it in, the program,
/// its arguments, and the environment variables to set for it (`None`:
/// inherit them all).
pub struct CliCommand {
    pub executor: CommandExecutor,
    pub program: String,
    pub args: Vec<String>,
    pub env: Option<Vec<(String, String)>>,
}

/// The environment a manager's commands run with: `PATH` set to
/// `path_env_var` where the manager has one, inherited otherwise.
pub open spec fn command_env_matches(env: Option<Vec<(String, String)>>, path_env_var: Option<String>) -> bool {
    match path_env_var {
        None => env is None,
        Some(p) => env matches Some(vars) && vars@.len() == 1 && vars@[0].0@ == "PATH"@
            && vars@[0].1@ == p@,
    }
}

/// Builds the command that runs `program` with `args` through `executor`,
/// with `PATH` set to `path_env_var` where there is one.
pub fn build_command(
    executor: &CommandExecutor,
    program: &str,
    args: Vec<String>,
    path_env_var: &Option<String>,
) -> (r: CliCommand)
    ensures
        r.executor == *executor,
        r.program@ == program@,
        r.args@ == args@,
        command_env_matches(r.env, *path_env_var),
{
    let env = match path_env_var {
        Some(path) => {
            let mut vars: Vec<(String, String)> = Vec::new();
            let name = "PATH";
            proof {
                reveal_strlit("PATH");
            }
            vars.push((name.to_owned(), path.clone()));
            Some(vars)
        },
        None => None,
    };
    CliCommand { executor: executor.duplicate(), program: program.to_owned(), args, env }
}

/// The three words of a `<verb> <action> <target>` subcommand, as arguments.
pub fn subcommand_args(verb: &str, action: &str, target: &str) -> (r: Vec<String>)
    ensures
        r@.len() == 3,
        r@[0]@ == verb@,
        r@[1]@ == action@,
        r@[2]@ == target@,
{
    let mut r: Vec<String> = Vec::new();
    r.push(verb.to_owned());
    r.push(action.to_owned());
    r.push(target.to_owned());
    r
}

/// One step of the manual install or update instructions.
pub struct PluginInstructionStep {
    pub description: &'static str,
    pub command: &'static str,
    pub executable: bool,
    pub link: Option<&'static str>,
}

/// The manual install or update instructions a manager shows.
pub struct PluginInstructions {
    pub title: &'static str,
    pub subtitle: &'static str,
    pub steps: Vec<PluginInstructionStep>,
    pub post_install_notes: Vec<&'static str>,
}

/// A failed install or update: what to tell the user, and the log of what
/// was run.
#[derive(Debug)]
pub struct PluginInstallError {
    pub message: String,
    pub log: String,
}

/// After an update, the plugin is still older than `minimum`: no version
/// could be read (`None`), or the one read is below it.
pub open spec fn still_outdated(installed: Option<Seq<char>>, minimum: Seq<char>) -> bool {
    match installed {
        Some(v) => version_below(v, minimum),
        None => true,
    }
}

/// The outcome of an update: the error of the update command where it
/// failed; otherwise an error with `message`, `note` added to the log, where
/// the version installed afterwards (`installed`) is still below `minimum`;
/// success otherwise.
pub fn update_outcome(
    run: Result<String, PluginInstallError>,
    installed: Option<String>,
    minimum: &str,
    note: &str,
    message: &str,
) -> (r: Result<(), PluginInstallError>)
    ensures
        match run {
            Err(e) => r == Err::<(), PluginInstallError>(e),
            Ok(log) => if still_outdated(
                match installed {
                    Some(v) => Some(v@),
                    None => None,
                },
                minimum@,
            ) {
                r matches Err(e) && e.message@ == message@ && e.log@ == log@ + note@
            } else {
                r is Ok
            },
        },
{
    let mut log = match run {
        Err(e) => return Err(e),
        Ok(log) => log,
    };
    let outdated = match &installed {
        Some(v) => is_older(v.as_str(), minimum),
        None => true,
    };
    if outdated {
        log.append(note);
        return Err(PluginInstallError { message: message.to_owned(), log });
    }
    Ok(())
}

/// The check after an update fails exactly when no version could be read,
/// or the version read comes strictly before the minimum in `(major, minor,
/// patch)` order; a version level with the minimum or newer passes.
pub proof fn lemma_post_update_check(installed: Seq<char>, minimum: Seq<char>)
    ensures
        still_outdated(None, minimum),
        still_outdated(Some(installed), minimum) <==> lexicographically_less(
            version_numbers(installed),
            version_numbers(minimum),
        ),
        !lexicographically_less(version_numbers(installed), version_numbers(minimum))
            ==> !still_outdated(Some(installed), minimum),
{
    lemma_below_is_lexicographic(installed, minimum);
}

} // verus!
