//! Planning where an editor that needs a terminal gets a pane of its own.
use super::{FileCheck, OpenInEditorPlan};
use crate::text;
use crate::words;
use vstd::prelude::*;

verus! {

/// The editors that draw in a terminal.
pub open spec fn is_terminal_editor(name: Seq<char>) -> bool {
    ||| name == "tfe"@
    ||| name == "micro"@
    ||| name == "vim"@
    ||| name == "nvim"@
    ||| name == "vi"@
    ||| name == "nano"@
    ||| name == "helix"@
    ||| name == "hx"@
    ||| name == "emacs"@
    ||| name == "ne"@
    ||| name == "mcedit"@
    ||| name == "joe"@
    ||| name == "jed"@
    ||| name == "kakoune"@
    ||| name == "kak"@
    ||| name == "amp"@
    ||| name == "zee"@
    ||| name == "ox"@
    ||| name == "dte"@
}

/// Whether a command starts an editor that draws in a terminal.
pub open spec fn needs_terminal(cmd: Seq<char>) -> bool {
    is_terminal_editor(words::base_name(words::first_word(cmd)))
}

/// Whether a command starts an editor that draws in a terminal: the file name
/// of its first word is a known one.
pub fn is_tui_editor(cmd: &str) -> (r: bool)
    ensures
        r == needs_terminal(cmd@),
{
    let head = words::head_word(cmd);
    let name = words::path_base_name(head.as_str());
    let n = name.as_str();
    text::str_eq(n, "tfe") || text::str_eq(n, "micro") || text::str_eq(n, "vim")
        || text::str_eq(n, "nvim") || text::str_eq(n, "vi") || text::str_eq(n, "nano")
        || text::str_eq(n, "helix") || text::str_eq(n, "hx") || text::str_eq(n, "emacs")
        || text::str_eq(n, "ne") || text::str_eq(n, "mcedit") || text::str_eq(n, "joe")
        || text::str_eq(n, "jed") || text::str_eq(n, "kakoune") || text::str_eq(n, "kak")
        || text::str_eq(n, "amp") || text::str_eq(n, "zee") || text::str_eq(n, "ox")
        || text::str_eq(n, "dte")
}

/// Whether the plan is one that the answers of `is_file_fn` and `resolve_fn`
/// allow.
pub open spec fn plan_follows<M, R, E>(
    location: Seq<char>,
    chain: Seq<String>,
    is_file_fn: M,
    resolve_fn: R,
    in_pane: bool,
    plan: super::PlanModel,
) -> bool where M: Fn(&str) -> Result<bool, E>, R: Fn(&[String]) -> Option<String> {
    exists|p: &str, res: Result<bool, E>|
        p@ == super::path_part(location) && #[trigger] call_ensures(is_file_fn, (p,), res)
            && match res {
            Ok(true) => exists|c: &[String], editor: Option<String>|
                c@ == chain && #[trigger] call_ensures(resolve_fn, (c,), editor) && plan
                    == super::planned(
                    location,
                    FileCheck::RegularFile,
                    super::opt_text(editor),
                    in_pane,
                ),
            Ok(false) => plan == super::planned(location, FileCheck::SomethingElse, None, in_pane),
            Err(_) => plan == super::planned(location, FileCheck::Missing, None, in_pane),
        }
}

/// Plans how a location is opened. `is_file_fn` says whether a path is a
/// regular file, or fails where there is nothing; it is asked first, because a
/// location comes from what a program printed. `resolve_fn` finds an editor.
pub fn plan_open_in_editor<M, R, E>(
    path_with_loc: &str,
    chain: &[String],
    is_file_fn: M,
    resolve_fn: R,
) -> (plan: OpenInEditorPlan) where
    M: Fn(&str) -> Result<bool, E>,
    R: Fn(&[String]) -> Option<String>,

    requires
        forall|p: &str| call_requires(is_file_fn, (p,)),
        forall|c: &[String]| call_requires(resolve_fn, (c,)),
    ensures
        plan_follows(path_with_loc@, chain@, is_file_fn, resolve_fn, true, plan@),
{
    let (path, _line) = super::split_location(path_with_loc);
    let found = is_file_fn(path.as_str());
    match found {
        Ok(true) => {
            let editor = resolve_fn(chain);
            super::plan_from_answers(path_with_loc, FileCheck::RegularFile, editor, true)
        },
        Ok(false) => super::plan_from_answers(
            path_with_loc,
            FileCheck::SomethingElse,
            None,
            true,
        ),
        Err(_) => super::plan_from_answers(path_with_loc, FileCheck::Missing, None, true),
    }
}

/// A file gets a pane exactly where the editor that was found draws in a terminal.
pub proof fn law_terminal_editors_get_a_pane(location: Seq<char>, editor: Seq<char>)
    ensures
        needs_terminal(editor) <==> super::planned(
            location,
            FileCheck::RegularFile,
            Some(editor),
            true,
        ) is SpawnInPane,
        !needs_terminal(editor) <==> super::planned(
            location,
            FileCheck::RegularFile,
            Some(editor),
            true,
        ) is Spawn,
{
}

} // verus!
