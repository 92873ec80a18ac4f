//! Opening a file in the user's editor: which editor, and how.
pub mod chain;
pub mod detached;
pub mod laws;
pub mod planner;
pub mod search;

use crate::text;
use crate::words;
use vstd::prelude::*;

verus! {

/// How a file is to be opened.
#[derive(Debug, Clone, PartialEq, Eq)]
pub enum OpenInEditorPlan {
    /// Start `editor +line path` as a process of its own.
    Spawn { editor: String, path: String, line: String },
    /// Start the editor in a new pane, where it has a terminal.
    SpawnInPane { editor: String, path: String, line: String },
    /// There is no editor; leave the file to the desktop.
    OpenFallback { path: String },
    /// There is nothing to open; the text is for the user.
    Fail(String),
}

#[verifier::ext_equal]
pub enum PlanModel {
    Spawn { editor: Seq<char>, path: Seq<char>, line: Seq<char> },
    SpawnInPane { editor: Seq<char>, path: Seq<char>, line: Seq<char> },
    OpenFallback { path: Seq<char> },
    Fail(Seq<char>),
}

impl View for OpenInEditorPlan {
    type V = PlanModel;

    open spec fn view(&self) -> PlanModel {
        match *self {
            OpenInEditorPlan::Spawn { editor, path, line } => PlanModel::Spawn {
                editor: editor@,
                path: path@,
                line: line@,
            },
            OpenInEditorPlan::SpawnInPane { editor, path, line } => PlanModel::SpawnInPane {
                editor: editor@,
                path: path@,
                line: line@,
            },
            OpenInEditorPlan::OpenFallback { path } => PlanModel::OpenFallback { path: path@ },
            OpenInEditorPlan::Fail(m) => PlanModel::Fail(m@),
        }
    }
}

/// What the file system says of a path.
#[derive(Debug, Clone, Copy, PartialEq, Eq, Structural)]
pub enum FileCheck {
    RegularFile,
    SomethingElse,
    Missing,
}

/// Where the first `c` at or behind `from` stands, or the end.
pub open spec fn find_from(s: Seq<char>, c: char, from: int) -> int
    decreases s.len() - from,
{
    if from >= s.len() {
        s.len() as int
    } else if s[from] == c {
        from
    } else {
        find_from(s, c, from + 1)
    }
}

pub open spec fn is_digit(c: char) -> bool {
    '0' <= c <= '9'
}

/// Whether the first colon of `s` is followed by a digit, and so starts a
/// line number.
pub open spec fn has_line(s: Seq<char>) -> bool {
    let i = find_from(s, ':', 0);
    i + 1 < s.len() && is_digit(s[i + 1])
}

/// The path in `path`, `path:line` or `path:line:column`.
pub open spec fn path_part(s: Seq<char>) -> Seq<char> {
    if has_line(s) {
        s.take(find_from(s, ':', 0))
    } else {
        s
    }
}

/// The line in `path:line` or `path:line:column`; the first line otherwise.
pub open spec fn line_part(s: Seq<char>) -> Seq<char> {
    if has_line(s) {
        let start = find_from(s, ':', 0) + 1;
        s.subrange(start, find_from(s, ':', start))
    } else {
        seq!['1']
    }
}

proof fn lemma_find_bounds(s: Seq<char>, c: char, from: int)
    requires
        0 <= from <= s.len(),
    ensures
        from <= find_from(s, c, from) <= s.len(),
    decreases s.len() - from,
{
    if from < s.len() && s[from] != c {
        lemma_find_bounds(s, c, from + 1);
    }
}

/// Where the first `c` at or behind `from` stands, or the end.
fn position_of(chars: &Vec<char>, c: char, from: usize) -> (r: usize)
    requires
        from <= chars@.len(),
    ensures
        r == find_from(chars@, c, from as int),
        from <= r <= chars@.len(),
{
    let mut i: usize = from;
    while i < chars.len() && chars[i] != c
        invariant
            from <= i <= chars@.len(),
            find_from(chars@, c, from as int) == find_from(chars@, c, i as int),
        decreases chars@.len() - i,
    {
        i += 1;
    }
    i
}

/// Parts `path`, `path:line` or `path:line:column` into path and line.
pub fn split_location(s: &str) -> (r: (String, String))
    ensures
        r.0@ == path_part(s@),
        r.1@ == line_part(s@),
{
    let chars = text::to_chars(s);
    let n: usize = chars.len();
    let i: usize = position_of(&chars, ':', 0);
    if i < n && i + 1 < n {
        let c = chars[i + 1];
        if '0' <= c && c <= '9' {
            let end: usize = position_of(&chars, ':', i + 1);
            let path = text::from_chars(&chars, 0, i);
            assert(path@ =~= s@.take(i as int));
            return (path, text::from_chars(&chars, i + 1, end));
        }
    }
    proof {
        reveal_strlit("1");
        assert("1"@ =~= seq!['1']);
    }
    (String::from_str(s), String::from_str("1"))
}

/// What is told of a path that is no regular file.
pub open spec fn not_a_file_text(path: Seq<char>) -> Seq<char> {
    words::base_name(path) + " is not a regular file"@
}

/// What is told of a path where there is nothing.
pub open spec fn not_found_text(path: Seq<char>) -> Seq<char> {
    "file not found: "@ + words::base_name(path)
}

/// How `location` is opened, given what the file system says of its path and
/// which editor was found. `in_pane` says whether an editor that needs a
/// terminal gets a pane.
pub open spec fn planned(
    location: Seq<char>,
    check: FileCheck,
    editor: Option<Seq<char>>,
    in_pane: bool,
) -> PlanModel {
    let path = path_part(location);
    let line = line_part(location);
    match check {
        FileCheck::SomethingElse => PlanModel::Fail(not_a_file_text(path)),
        FileCheck::Missing => PlanModel::Fail(not_found_text(path)),
        FileCheck::RegularFile => match editor {
            Some(editor) => if in_pane && planner::needs_terminal(editor) {
                PlanModel::SpawnInPane { editor, path, line }
            } else {
                PlanModel::Spawn { editor, path, line }
            },
            None => PlanModel::OpenFallback { path },
        },
    }
}

/// The texts of an optional string.
pub open spec fn opt_text(s: Option<String>) -> Option<Seq<char>> {
    match s {
        Some(t) => Some(t@),
        None => None,
    }
}

/// How `location` is opened once the file system and the search for an editor
/// have answered.
pub fn plan_from_answers(
    location: &str,
    check: FileCheck,
    editor: Option<String>,
    in_pane: bool,
) -> (plan: OpenInEditorPlan)
    ensures
        plan@ == planned(location@, check, opt_text(editor), in_pane),
{
    let (path, line) = split_location(location);
    match check {
        FileCheck::SomethingElse => {
            let mut message = words::path_base_name(path.as_str());
            message.append(" is not a regular file");
            OpenInEditorPlan::Fail(message)
        },
        FileCheck::Missing => {
            let mut message = String::from_str("file not found: ");
            message.append(words::path_base_name(path.as_str()).as_str());
            OpenInEditorPlan::Fail(message)
        },
        FileCheck::RegularFile => match editor {
            Some(editor) => if in_pane && planner::is_tui_editor(editor.as_str()) {
                OpenInEditorPlan::SpawnInPane { editor, path, line }
            } else {
                OpenInEditorPlan::Spawn { editor, path, line }
            },
            None => OpenInEditorPlan::OpenFallback { path },
        },
    }
}

} // verus!
