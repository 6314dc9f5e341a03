//! File-system paths as strings, joined the way `PathBuf::join` joins them
//! on Unix, and the home directory an agent keeps its files in.

use vstd::prelude::*;
use crate::text::chars_of;

verus! {

/// `base` joined with `part` as `PathBuf::join` does on Unix: an absolute
/// `part` replaces `base`; otherwise a `/` separates the two unless `base`
/// is empty or already ends in one.
pub open spec fn path_join(base: Seq<char>, part: Seq<char>) -> Seq<char> {
    if part.len() > 0 && part[0] == '/' {
        part
    } else if base.len() == 0 || base.last() == '/' {
        base + part
    } else {
        base + seq!['/'] + part
    }
}

/// Joins `part` onto `base` (see [`path_join`]).
pub fn join_path(base: &str, part: &str) -> (r: String)
    ensures
        r@ == path_join(base@, part@),
{
    let part_chars = chars_of(part);
    if part_chars.len() > 0 && part_chars[0] == '/' {
        return part.to_owned();
    }
    let base_chars = chars_of(base);
    let mut r = base.to_owned();
    if base_chars.len() > 0 && base_chars[base_chars.len() - 1] != '/' {
        let sep = "/";
        proof {
            reveal_strlit("/");
        }
        r.append(sep);
    }
    r.append(part);
    r
}

/// Why an agent's home directory could not be found.
#[derive(Debug, PartialEq, Eq, Structural, Clone, Copy)]
pub enum HomeDirError {
    /// Neither an override nor the user's home directory is known.
    NotFound,
}

impl HomeDirError {
    /// The message that goes with the error.
    pub fn message(&self) -> (r: &'static str)
        ensures
            r@ == "could not determine home directory"@,
    {
        "could not determine home directory"
    }
}

/// Where an agent keeps its files: the override where one is set, else the
/// directory `dir_name` inside the user's home, else nowhere.
pub open spec fn agent_home(
    custom: Option<Seq<char>>,
    home: Option<Seq<char>>,
    dir_name: Seq<char>,
) -> Option<Seq<char>> {
    match custom {
        Some(c) => Some(c),
        None => match home {
            Some(h) => Some(path_join(h, dir_name)),
            None => None,
        },
    }
}

/// The view of an optional string.
pub open spec fn opt_string_view(o: Option<String>) -> Option<Seq<char>> {
    match o {
        Some(s) => Some(s@),
        None => None,
    }
}

/// Resolves an agent's home directory from the override (`custom`) and the
/// user's home directory (`home`), as [`agent_home`] says.
pub fn resolve_agent_home(custom: Option<String>, home: Option<String>, dir_name: &str) -> (r:
    Result<String, HomeDirError>)
    ensures
        match agent_home(opt_string_view(custom), opt_string_view(home), dir_name@) {
            Some(p) => r matches Ok(s) && s@ == p,
            None => r == Err::<String, HomeDirError>(HomeDirError::NotFound),
        },
{
    match custom {
        Some(c) => Ok(c),
        None => match home {
            Some(h) => Ok(join_path(h.as_str(), dir_name)),
            None => Err(HomeDirError::NotFound),
        },
    }
}

/// Asks `dirs::home_dir` for the user's home directory, as a string (bytes
/// that are not UTF-8 become U+FFFD). The answer depends on the environment
/// and the user database, so nothing is stated of it.
#[verifier::external_body]
pub(crate) fn user_home_dir() -> (r: Option<String>) {
    match dirs::home_dir() {
        Some(p) => Some(p.to_string_lossy().into_owned()),
        None => None,
    }
}

/// Where an agent keeps its files: the override `custom_home` where one is
/// set, else the directory `dir_name` inside the user's home directory.
pub fn agent_home_dir(custom_home: Option<String>, dir_name: &str) -> (r: Result<
    String,
    HomeDirError,
>)
    ensures
        custom_home matches Some(c) ==> (r matches Ok(s) && s@ == c@),
        custom_home is None ==> (r matches Ok(s) ==> exists|h: Seq<char>|
            path_join(h, dir_name@) == #[trigger] s@),
{
    if custom_home.is_some() {
        return resolve_agent_home(custom_home, None, dir_name);
    }
    let home = user_home_dir();
    let ghost home_view = opt_string_view(home);
    let r = resolve_agent_home(None, home, dir_name);
    proof {
        if let Some(h) = home_view {
            assert(path_join(h, dir_name@) == r->Ok_0@);
        }
    }
    r
}

/// Asks the file system whether `path` names an existing entry
/// (`std::path::Path::exists`). The answer depends on the disk, so nothing
/// is stated of it.
#[verifier::external_body]
pub(crate) fn path_exists(path: &str) -> (r: bool) {
    std::path::Path::new(path).exists()
}

} // verus!
