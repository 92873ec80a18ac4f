//! What holds of the search for editors and of the places that they open.
use super::search;
use super::search::FileFacts;
use super::{chain, FileCheck, PlanModel};
use crate::words;
use vstd::prelude::*;

verus! {

proof fn lemma_find(s: Seq<char>, c: char, from: int, to: int)
    requires
        0 <= from <= to <= s.len(),
        forall|i: int| from <= i < to ==> s[i] != c,
        to < s.len() ==> s[to] == c,
    ensures
        super::find_from(s, c, from) == to,
    decreases to - from,
{
    if from < to {
        lemma_find(s, c, from + 1, to);
    }
}

/// A path and a line number with a colon between them come apart again, whatever
/// stands behind a second colon.
pub proof fn law_location_comes_apart(path: Seq<char>, line: Seq<char>, column: Seq<char>)
    requires
        !path.contains(':'),
        !line.contains(':'),
        line.len() > 0,
        '0' <= line[0] <= '9',
    ensures
        super::path_part(path + seq![':'] + line) == path,
        super::line_part(path + seq![':'] + line) == line,
        super::path_part(path + seq![':'] + line + seq![':'] + column) == path,
        super::line_part(path + seq![':'] + line + seq![':'] + column) == line,
{
    let (n, k) = (path.len() as int, line.len() as int);
    assert forall|i: int| 0 <= i < n implies path[i] != ':' by {
        assert(path.contains(path[i]));
    }
    assert forall|i: int| 0 <= i < k implies line[i] != ':' by {
        assert(line.contains(line[i]));
    }
    let short = path + seq![':'] + line;
    let long = short + seq![':'] + column;
    lemma_find(short, ':', 0, n);
    lemma_find(short, ':', n + 1, n + 1 + k);
    lemma_find(long, ':', 0, n);
    lemma_find(long, ':', n + 1, n + 1 + k);
    assert(short[n + 1] == line[0]);
    assert(long[n + 1] == line[0]);
    assert(short.take(n) =~= path);
    assert(long.take(n) =~= path);
    assert(short.subrange(n + 1, n + 1 + k) =~= line);
    assert(long.subrange(n + 1, n + 1 + k) =~= line);
}

/// Without a number behind its first colon, a location is all path, and its line is
/// the first.
pub proof fn law_location_without_line(path: Seq<char>, rest: Seq<char>)
    requires
        !path.contains(':'),
        rest.len() > 0 ==> !('0' <= rest[0] <= '9'),
    ensures
        super::path_part(path) == path,
        super::line_part(path) == seq!['1'],
        super::path_part(path + seq![':'] + rest) == path + seq![':'] + rest,
        super::line_part(path + seq![':'] + rest) == seq!['1'],
{
    let n = path.len() as int;
    assert forall|i: int| 0 <= i < n implies path[i] != ':' by {
        assert(path.contains(path[i]));
    }
    lemma_find(path, ':', 0, n);
    let s = path + seq![':'] + rest;
    lemma_find(s, ':', 0, n);
    if rest.len() > 0 {
        assert(s[n + 1] == rest[0]);
    }
}

/// A regular file is opened in the editor that was found, at the line that was given;
/// without an editor its path is handed to the system. Nothing else is opened.
pub proof fn law_plans_open_the_location(
    path: Seq<char>,
    line: Seq<char>,
    editor: Seq<char>,
    in_pane: bool,
    check: FileCheck,
)
    requires
        !path.contains(':'),
        !line.contains(':'),
        line.len() > 0,
        '0' <= line[0] <= '9',
    ensures
        ({
            let location = path + seq![':'] + line;
            let plan = super::planned(location, FileCheck::RegularFile, Some(editor), in_pane);
            let plain = super::planned(path, FileCheck::RegularFile, Some(editor), in_pane);
            &&& plan == (PlanModel::Spawn { editor, path, line }) || plan == (
            PlanModel::SpawnInPane { editor, path, line })
            &&& plain == (PlanModel::Spawn { editor, path, line: seq!['1'] }) || plain == (
            PlanModel::SpawnInPane { editor, path, line: seq!['1'] })
            &&& !in_pane ==> plan is Spawn && plain is Spawn
            &&& super::planned(location, FileCheck::RegularFile, None, in_pane) == (
            PlanModel::OpenFallback { path })
            &&& check != FileCheck::RegularFile ==> super::planned(
                location,
                check,
                Some(editor),
                in_pane,
            ) is Fail
        }),
{
    law_location_comes_apart(path, line, seq![]);
    law_location_without_line(path, seq![]);
}

/// In each directory of the search path, one after the other, a command is looked for
/// under its name and then with each extension.
pub proof fn law_all_candidates(
    cmd: Seq<char>,
    dirs: Seq<Seq<char>>,
    exts: Seq<Seq<char>>,
    d: int,
    e: int,
)
    requires
        !cmd.contains('/'),
        !cmd.contains('\\'),
        0 <= d < dirs.len(),
        0 <= e < exts.len(),
    ensures
        search::candidates(cmd, dirs, exts).len() == dirs.len() * (exts.len() + 1),
        search::candidates(cmd, dirs, exts)[d * (exts.len() + 1)] == search::joined_path(
            dirs[d],
            cmd,
        ),
        search::candidates(cmd, dirs, exts)[d * (exts.len() + 1) + 1 + e] == search::joined_path(
            dirs[d],
            cmd + exts[e],
        ),
{
    lemma_candidates(cmd, dirs, exts, dirs.len() as int, d, e);
}

proof fn lemma_candidates(
    cmd: Seq<char>,
    dirs: Seq<Seq<char>>,
    exts: Seq<Seq<char>>,
    n: int,
    d: int,
    e: int,
)
    requires
        0 <= n <= dirs.len(),
        0 <= e < exts.len(),
    ensures
        search::in_dirs(dirs, n, cmd, exts).len() == n * (exts.len() + 1),
        0 <= d < n ==> {
            &&& 0 <= d * (exts.len() + 1) < d * (exts.len() + 1) + 1 + e < n * (exts.len() + 1)
            &&& search::in_dirs(dirs, n, cmd, exts)[d * (exts.len() + 1)] == search::joined_path(
                dirs[d],
                cmd,
            )
            &&& search::in_dirs(dirs, n, cmd, exts)[d * (exts.len() + 1) + 1 + e]
                == search::joined_path(dirs[d], cmd + exts[e])
        },
    decreases n,
{
    let w = exts.len() as int + 1;
    assert(w == exts.len() + 1);
    if n > 0 {
        lemma_candidates(cmd, dirs, exts, n - 1, d, e);
        assert((n - 1) * w + w == n * w) by (nonlinear_arith);
        assert(0 * w == 0);
        if 0 <= d < n {
            assert(d * w + w <= n * w) by (nonlinear_arith)
                requires
                    0 <= d < n,
                    w > 0,
            ;
            assert(0 <= d * w) by (nonlinear_arith)
                requires
                    0 <= d,
                    w > 0,
            ;
        }
        let last = search::in_dir(dirs[n - 1], cmd, exts);
        assert(last[0] == search::joined_path(dirs[n - 1], cmd));
        assert(last[1 + e] == search::joined_path(dirs[n - 1], cmd + exts[e]));
    }
}

/// A command with a path is looked for there only; one in a directory has one slash
/// between them.
pub proof fn law_paths_are_tried_as_they_are(
    cmd: Seq<char>,
    dirs: Seq<Seq<char>>,
    exts: Seq<Seq<char>>,
    dir: Seq<char>,
)
    ensures
        cmd.contains('/') || cmd.contains('\\') ==> search::candidates(cmd, dirs, exts)
            == seq![cmd],
        dir.len() > 0 && dir.last() != '/' ==> search::joined_path(dir, cmd) == dir + seq!['/']
            + cmd,
        search::joined_path(dir.push('/'), cmd) == dir + seq!['/'] + cmd,
        search::joined_path(seq![], cmd) == cmd,
{
    assert(dir.push('/') =~= dir + seq!['/']);
    assert(Seq::<char>::empty() + cmd =~= cmd);
}

/// A file can be executed if anybody may execute it; on a system that does not know,
/// every file can.
pub proof fn law_executable_files(facts: FileFacts, mode: u32)
    ensures
        !facts.is_file ==> !search::can_execute(facts),
        facts.is_file && facts.mode is None ==> search::can_execute(facts),
        facts.is_file && facts.mode == Some(mode) ==> (search::can_execute(facts) <==> mode & 0o100
            != 0 || mode & 0o010 != 0 || mode & 0o001 != 0),
{
    assert(mode & 0o111 != 0 <==> mode & 0o100 != 0 || mode & 0o010 != 0 || mode & 0o001 != 0)
        by (bit_vector);
}

/// A command is there exactly if some file that it may be is found to be executable,
/// provided that two questions of one path have one answer.
pub proof fn law_found_by_an_executable<F>(
    files: Seq<Seq<char>>,
    probe: F,
    found: bool,
    k: int,
) where F: Fn(&str) -> FileFacts
    requires
        search::searched(files, probe, found),
        0 <= k < files.len(),
        forall|a: &str, facts: FileFacts|
            a@ == files[k] && #[trigger] call_ensures(probe, (a,), facts) ==> facts.is_file
                && facts.mode is None,
    ensures
        found,
{
    if !found {
        let j = choose|j: int|
            {
                &&& 0 <= j <= files.len()
                &&& #[trigger] search::none_of(files, j, probe)
                &&& j == files.len()
            };
        assert(search::probed(probe, files[k], false));
    }
}

/// An editor of the list is the first one that is there: every one before it is not,
/// and it is given back whole, or as the value of its variable.
pub proof fn law_first_editor_that_is_there<W, E>(
    list: Seq<String>,
    which_fn: W,
    env_fn: E,
    r: Option<String>,
) where W: Fn(&str) -> bool, E: Fn(&str) -> Option<String>
    requires
        chain::chain_gives(list, which_fn, env_fn, r),
    ensures
        r matches Some(cmd) ==> {
            &&& exists|k: int|
                {
                    &&& 0 <= k < list.len()
                    &&& if (#[trigger] list[k])@.len() > 0 && list[k]@[0] == '$' {
                        exists|name: &str|
                            name@ == list[k]@.skip(1) && #[trigger] call_ensures(
                                env_fn,
                                (name,),
                                Some(cmd),
                            )
                    } else {
                        list[k] == cmd
                    }
                    &&& forall|j: int|
                        0 <= j < k ==> chain::entry_gives(
                            #[trigger] list[j],
                            which_fn,
                            env_fn,
                            None,
                        )
                }
            &&& words::first_word(cmd@).len() > 0
            &&& exists|a: &str|
                a@ == words::first_word(cmd@) && #[trigger] call_ensures(which_fn, (a,), true)
        },
        r is None ==> forall|j: int|
            0 <= j < list.len() ==> chain::entry_gives(#[trigger] list[j], which_fn, env_fn, None),
{
    if let Some(cmd) = r {
        let k = choose|k: int|
            0 <= k < list.len() && (forall|j: int|
                0 <= j < k ==> chain::entry_gives(#[trigger] list[j], which_fn, env_fn, None))
                && chain::entry_gives(#[trigger] list[k], which_fn, env_fn, Some(cmd));
        assert(chain::entry_gives(list[k], which_fn, env_fn, Some(cmd)));
    }
}

/// An entry that is no variable, and whose first word is always found, is not passed
/// over.
pub proof fn law_found_entry_is_not_passed_over<W, E>(
    list: Seq<String>,
    which_fn: W,
    env_fn: E,
    r: Option<String>,
    i: int,
) where W: Fn(&str) -> bool, E: Fn(&str) -> Option<String>
    requires
        chain::chain_gives(list, which_fn, env_fn, r),
        0 <= i < list.len(),
        list[i]@.len() > 0 ==> list[i]@[0] != '$',
        words::first_word(list[i]@).len() > 0,
        forall|a: &str, found: bool|
            a@ == words::first_word(list[i]@) && #[trigger] call_ensures(which_fn, (a,), found)
                ==> found,
    ensures
        r is Some,
        !chain::entry_gives(list[i], which_fn, env_fn, None),
{
    assert(!chain::entry_gives(list[i], which_fn, env_fn, None));
    if r is None {
        law_first_editor_that_is_there(list, which_fn, env_fn, r);
    }
}

/// The editors that draw in a terminal, however they are called.
pub proof fn law_editors_that_need_a_terminal(name: Seq<char>, dir: Seq<char>, rest: Seq<char>)
    requires
        name.len() > 0,
        !name.contains('/'),
        name != seq!['.'],
        name != seq!['.', '.'],
        forall|i: int| 0 <= i < name.len() ==> !words::is_white_space(#[trigger] name[i]),
        forall|i: int| 0 <= i < dir.len() ==> !words::is_white_space(#[trigger] dir[i]),
        rest.len() > 0 ==> words::is_white_space(rest[0]),
    ensures
        super::planner::needs_terminal(name + rest) == super::planner::is_terminal_editor(name),
        super::planner::needs_terminal(dir.push('/') + name + rest)
            == super::planner::is_terminal_editor(name),
        super::planner::is_terminal_editor(name) <==> seq![
            "tfe"@,
            "micro"@,
            "vim"@,
            "nvim"@,
            "vi"@,
            "nano"@,
            "helix"@,
            "hx"@,
            "emacs"@,
            "ne"@,
            "mcedit"@,
            "joe"@,
            "jed"@,
            "kakoune"@,
            "kak"@,
            "amp"@,
            "zee"@,
            "ox"@,
            "dte"@,
        ].contains(name),
{
    let none = Seq::<char>::empty();
    assert(none + name + rest =~= name + rest);
    words::law_first_word(none, name, rest);
    words::law_name_alone(name);
    let path = dir.push('/') + name;
    assert forall|i: int| 0 <= i < path.len() implies !words::is_white_space(
        #[trigger] path[i],
    ) by {
        if i < dir.len() {
            assert(path[i] == dir[i]);
        } else if i == dir.len() {
            assert(path[i] == '/');
        } else {
            assert(path[i] == name[i - dir.len() - 1]);
        }
    }
    assert(none + path + rest =~= path + rest);
    words::law_first_word(none, path, rest);
    words::law_name_behind_a_slash(dir, name);
    let all = seq![
        "tfe"@,
        "micro"@,
        "vim"@,
        "nvim"@,
        "vi"@,
        "nano"@,
        "helix"@,
        "hx"@,
        "emacs"@,
        "ne"@,
        "mcedit"@,
        "joe"@,
        "jed"@,
        "kakoune"@,
        "kak"@,
        "amp"@,
        "zee"@,
        "ox"@,
        "dte"@,
    ];
    assert(all[0] == "tfe"@ && all[1] == "micro"@ && all[2] == "vim"@ && all[3] == "nvim"@ && all[4]
        == "vi"@ && all[5] == "nano"@ && all[6] == "helix"@ && all[7] == "hx"@ && all[8]
        == "emacs"@ && all[9] == "ne"@ && all[10] == "mcedit"@ && all[11] == "joe"@ && all[12]
        == "jed"@ && all[13] == "kakoune"@ && all[14] == "kak"@ && all[15] == "amp"@ && all[16]
        == "zee"@ && all[17] == "ox"@ && all[18] == "dte"@);
}

/// A refusal names the file, and not the directories before it.
pub proof fn law_refusals_name_the_file(dir: Seq<char>, name: Seq<char>)
    requires
        name.len() > 0,
        !name.contains('/'),
        name != seq!['.'],
        name != seq!['.', '.'],
    ensures
        name.is_prefix_of(super::not_a_file_text(dir.push('/') + name)),
        name.is_suffix_of(super::not_found_text(dir.push('/') + name)),
        super::not_a_file_text(dir.push('/') + name) == super::not_a_file_text(name),
        super::not_found_text(dir.push('/') + name) == super::not_found_text(name),
{
    words::law_name_behind_a_slash(dir, name);
    words::law_name_alone(name);
    let a = super::not_a_file_text(name);
    let b = super::not_found_text(name);
    assert(name =~= a.take(name.len() as int));
    assert(name =~= b.subrange(b.len() - name.len(), b.len() as int));
}

/// A location is opened only where its path is said to be a regular file; where there
/// is something else or nothing, the plan is to fail.
pub proof fn law_only_files_are_opened<M, R, E>(
    location: Seq<char>,
    list: Seq<String>,
    is_file_fn: M,
    resolve_fn: R,
    in_pane: bool,
    plan: PlanModel,
) where M: Fn(&str) -> Result<bool, E>, R: Fn(&[String]) -> Option<String>
    requires
        super::planner::plan_follows(location, list, is_file_fn, resolve_fn, in_pane, plan),
    ensures
        !(plan is Fail) ==> exists|p: &str|
            p@ == super::path_part(location) && #[trigger] call_ensures(is_file_fn, (p,), Ok(true)),
        plan matches PlanModel::Spawn { editor, path, line } ==> path == super::path_part(location)
            && line == super::line_part(location) && exists|c: &[String], found: Option<String>|
            c@ == list && #[trigger] call_ensures(resolve_fn, (c,), found) && found is Some
                && found->0@ == editor,
        plan matches PlanModel::SpawnInPane { editor, path, line } ==> path == super::path_part(
            location,
        ) && line == super::line_part(location) && exists|c: &[String], found: Option<String>|
            c@ == list && #[trigger] call_ensures(resolve_fn, (c,), found) && found is Some
                && found->0@ == editor,
        plan is OpenFallback ==> exists|c: &[String]|
            c@ == list && #[trigger] call_ensures(resolve_fn, (c,), None),
{
}

/// The first entry of a list counts if it gives a command, whatever stands behind it;
/// an empty list gives none.
pub proof fn law_first_entry_counts<W, E>(
    list: Seq<String>,
    which_fn: W,
    env_fn: E,
    cmd: String,
) where W: Fn(&str) -> bool, E: Fn(&str) -> Option<String>
    ensures
        list.len() > 0 && chain::entry_gives(list[0], which_fn, env_fn, Some(cmd))
            ==> chain::chain_gives(list, which_fn, env_fn, Some(cmd)),
        list.len() == 0 ==> chain::chain_gives(list, which_fn, env_fn, None),
{
    let none = list.take(0);
    if list.len() > 0 && chain::entry_gives(list[0], which_fn, env_fn, Some(cmd)) {
        assert(none.len() == 0);
    }
}

} // verus!
