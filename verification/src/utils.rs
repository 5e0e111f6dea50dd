//! Where the client keeps its files, and how it picks an editor for them.
//! Reading the environment and starting the editor are the caller's.

use crate::text::opt_text;
use vstd::prelude::*;

verus! {

/// The directory, below the user's home, in which the client keeps its files.
pub const CONFIG_DIR_NAME: &'static str = ".gpt-shell";

/// The file that keeps the configuration.
pub const CONFIG_FILE_NAME: &'static str = "config.toml";

/// The file that keeps the bots.
pub const BOTS_FILE_NAME: &'static str = "bots.toml";

/// The directory that keeps the agents, one file each.
pub const AGENTS_DIR_NAME: &'static str = "agents";

/// The user's home: what `HOME` names, else what `USERPROFILE` names.
pub fn home_of(home: Option<String>, user_profile: Option<String>) -> (r: Option<String>)
    ensures
        r == match home {
            Some(h) => Some(h),
            None => user_profile,
        },
{
    match home {
        Some(h) => Some(h),
        None => user_profile,
    }
}

/// What to do when none of the editors could be started.
#[derive(Clone, Copy, Debug, PartialEq, Eq, Structural)]
pub enum Exhausted {
    /// Fail with the error of the last editor that was tried.
    Fail,
    /// Tell the user where the file is, and go on.
    Report,
}

/// Which editors to try for a file, in order, until one starts.
#[derive(Debug, PartialEq, Eq)]
pub struct EditorPlan {
    pub candidates: Vec<String>,
    pub exhausted: Exhausted,
}

/// The names of a list of programs as character sequences.
pub open spec fn names(list: Seq<String>) -> Seq<Seq<char>> {
    Seq::new(list.len(), |i: int| list[i]@)
}

/// The editors for a file of the client. On Windows: Visual Studio Code,
/// then the notepad; if neither starts the user is told where the file is.
/// Elsewhere: the editor that `EDITOR` names and no other; without `EDITOR`,
/// a list of common editors and at last the desktop's opener.
pub open spec fn editors(windows: bool, editor: Option<Seq<char>>) -> (Seq<Seq<char>>, Exhausted) {
    if windows {
        (seq!["code"@, "C:\\Windows\\System32\\notepad.exe"@], Exhausted::Report)
    } else {
        match editor {
            Some(e) => (seq![e], Exhausted::Fail),
            None => (seq!["code"@, "vim"@, "nano"@, "gedit"@, "xdg-open"@], Exhausted::Fail),
        }
    }
}

/// The editors for the file of the bots. They are those of any other file
/// but on Windows: there Visual Studio Code, then Notepad++, then the
/// notepad, and a failure if none starts.
pub open spec fn bots_editors(windows: bool, editor: Option<Seq<char>>) -> (
    Seq<Seq<char>>,
    Exhausted,
) {
    if windows {
        (seq!["code"@, "notepad++"@, "notepad"@], Exhausted::Fail)
    } else {
        editors(false, editor)
    }
}

/// The common editors and the desktop's opener.
fn unix_editors(editor: Option<String>) -> (r: EditorPlan)
    ensures
        (names(r.candidates@), r.exhausted) == editors(false, opt_text(editor)),
{
    let candidates = match editor {
        Some(e) => {
            let c = vec![e];
            assert(names(c@) =~= seq![e@]);
            c
        },
        None => {
            let c = vec![
                "code".to_string(),
                "vim".to_string(),
                "nano".to_string(),
                "gedit".to_string(),
                "xdg-open".to_string(),
            ];
            assert(names(c@) =~= seq!["code"@, "vim"@, "nano"@, "gedit"@, "xdg-open"@]);
            c
        },
    };
    EditorPlan { candidates, exhausted: Exhausted::Fail }
}

/// The editors to try for a file of the client.
pub fn editor_plan(windows: bool, editor: Option<String>) -> (r: EditorPlan)
    ensures
        (names(r.candidates@), r.exhausted) == editors(windows, opt_text(editor)),
{
    if windows {
        let candidates = vec!["code".to_string(), "C:\\Windows\\System32\\notepad.exe".to_string()];
        assert(names(candidates@) =~= seq!["code"@, "C:\\Windows\\System32\\notepad.exe"@]);
        EditorPlan { candidates, exhausted: Exhausted::Report }
    } else {
        unix_editors(editor)
    }
}

/// The editors to try for the file of the bots.
pub fn bots_editor_plan(windows: bool, editor: Option<String>) -> (r: EditorPlan)
    ensures
        (names(r.candidates@), r.exhausted) == bots_editors(windows, opt_text(editor)),
{
    if windows {
        let candidates = vec!["code".to_string(), "notepad++".to_string(), "notepad".to_string()];
        assert(names(candidates@) =~= seq!["code"@, "notepad++"@, "notepad"@]);
        EditorPlan { candidates, exhausted: Exhausted::Fail }
    } else {
        unix_editors(editor)
    }
}

} // verus!
