//! Where a command may lie.
use crate::text;
use vstd::prelude::*;

verus! {

/// Whether a command names its file by a path.
pub open spec fn names_a_path(cmd: Seq<char>) -> bool {
    cmd.contains('/') || cmd.contains('\\')
}

/// `name` in the directory `dir`.
pub open spec fn joined_path(dir: Seq<char>, name: Seq<char>) -> Seq<char> {
    if dir.len() == 0 || dir.last() == '/' {
        dir + name
    } else {
        dir.push('/') + name
    }
}

/// The files that `cmd` may be in one directory: itself, then with each
/// extension.
pub open spec fn in_dir(dir: Seq<char>, cmd: Seq<char>, exts: Seq<Seq<char>>) -> Seq<Seq<char>> {
    seq![joined_path(dir, cmd)] + Seq::new(exts.len(), |i: int| joined_path(dir, cmd + exts[i]))
}

/// The files that `cmd` may be in the first `n` directories.
pub open spec fn in_dirs(
    dirs: Seq<Seq<char>>,
    n: int,
    cmd: Seq<char>,
    exts: Seq<Seq<char>>,
) -> Seq<Seq<char>>
    decreases n,
{
    if n <= 0 {
        seq![]
    } else {
        in_dirs(dirs, n - 1, cmd, exts) + in_dir(dirs[n - 1], cmd, exts)
    }
}

/// The files that a command may be, in the order in which they are tried.
pub open spec fn candidates(
    cmd: Seq<char>,
    dirs: Seq<Seq<char>>,
    exts: Seq<Seq<char>>,
) -> Seq<Seq<char>> {
    if names_a_path(cmd) {
        seq![cmd]
    } else {
        in_dirs(dirs, dirs.len() as int, cmd, exts)
    }
}

fn join_path(dir: &str, name: &str, ext: &str) -> (r: String)
    ensures
        r@ == joined_path(dir@, name@ + ext@),
{
    let n: usize = dir.unicode_len();
    let mut out = String::from_str(dir);
    if n > 0 && dir.get_char(n - 1) != '/' {
        out.push('/');
    }
    out.append(name);
    out.append(ext);
    assert(out@ =~= joined_path(dir@, name@ + ext@));
    out
}

fn has_separator(cmd: &str) -> (r: bool)
    ensures
        r == names_a_path(cmd@),
{
    let chars = text::to_chars(cmd);
    let mut i: usize = 0;
    while i < chars.len()
        invariant
            chars@ == cmd@,
            i <= cmd@.len(),
            forall|k: int| 0 <= k < i ==> cmd@[k] != '/' && cmd@[k] != '\\',
        decreases cmd@.len() - i,
    {
        if chars[i] == '/' || chars[i] == '\\' {
            assert(cmd@.contains(cmd@[i as int]));
            return true;
        }
        i += 1;
    }
    false
}

/// The files to try for `cmd`, given the directories of the search path and
/// the extensions of programs. A command with a path is tried as it is.
pub fn which_candidates(cmd: &str, dirs: &Vec<String>, exts: &Vec<String>) -> (r: Vec<String>)
    ensures
        text::texts(r@) == candidates(
            cmd@,
            text::texts(dirs@),
            text::texts(exts@),
        ),
{
    let mut out: Vec<String> = Vec::new();
    let ghost ds = text::texts(dirs@);
    let ghost es = text::texts(exts@);
    if has_separator(cmd) {
        out.push(String::from_str(cmd));
        assert(text::texts(out@) =~= candidates(cmd@, ds, es));
        return out;
    }
    let mut i: usize = 0;
    assert(text::texts(out@) =~= in_dirs(ds, 0, cmd@, es));
    while i < dirs.len()
        invariant
            i <= dirs@.len(),
            ds == text::texts(dirs@),
            es == text::texts(exts@),
            text::texts(out@) == in_dirs(ds, i as int, cmd@, es),
        decreases dirs@.len() - i,
    {
        let ghost before = text::texts(out@);
        let plain = join_path(dirs[i].as_str(), cmd, "");
        proof {
            reveal_strlit("");
            assert(cmd@ + ""@ =~= cmd@);
        }
        out.push(plain);
        let mut k: usize = 0;
        assert(text::texts(out@) =~= before + in_dir(ds[i as int], cmd@, es).take(1));
        while k < exts.len()
            invariant
                i < dirs@.len(),
                k <= exts@.len(),
                ds == text::texts(dirs@),
                es == text::texts(exts@),
                text::texts(out@) == before + in_dir(ds[i as int], cmd@, es).take(
                    k as int + 1,
                ),
            decreases exts@.len() - k,
        {
            let ghost prev = text::texts(out@);
            let with_ext = join_path(dirs[i].as_str(), cmd, exts[k].as_str());
            out.push(with_ext);
            proof {
                let all = in_dir(ds[i as int], cmd@, es);
                assert(text::texts(out@) =~= prev.push(with_ext@));
                assert(all[k as int + 1] == joined_path(ds[i as int], cmd@ + es[k as int]));
                assert(all.take(k as int + 2) =~= all.take(k as int + 1).push(with_ext@));
                assert(text::texts(out@) =~= before + all.take(k as int + 2));
            }
            k += 1;
        }
        proof {
            assert(in_dir(ds[i as int], cmd@, es).take(k as int + 1) =~= in_dir(
                ds[i as int],
                cmd@,
                es,
            ));
            assert(text::texts(out@) =~= in_dirs(ds, i as int + 1, cmd@, es));
        }
        i += 1;
    }
    out
}

/// What the file system says of a path.
#[derive(Debug, Clone, Copy, PartialEq, Eq, Structural)]
pub struct FileFacts {
    /// Whether it is a regular file.
    pub is_file: bool,
    /// The bits that say who may do what with it, where the system keeps such.
    pub mode: Option<u32>,
}

/// The bits by which the owner, the group or others may execute a file.
pub const EXECUTE_BITS: u32 = 0o111;

/// Whether it is a file that can be executed: by anybody, where the system knows.
pub open spec fn can_execute(facts: FileFacts) -> bool {
    facts.is_file && (facts.mode matches Some(mode) ==> mode & EXECUTE_BITS != 0)
}

/// Whether it is a file that can be executed.
pub fn is_executable(facts: FileFacts) -> (r: bool)
    ensures
        r == can_execute(facts),
{
    facts.is_file && match facts.mode {
        Some(mode) => mode & EXECUTE_BITS != 0,
        None => true,
    }
}

/// Whether `probe` can say of the path `s` that it can be executed, or, with
/// `yes` false, that it can not.
pub open spec fn probed<F: Fn(&str) -> FileFacts>(probe: F, s: Seq<char>, yes: bool) -> bool {
    exists|a: &str, facts: FileFacts|
        a@ == s && #[trigger] call_ensures(probe, (a,), facts) && can_execute(facts) == yes
}

/// Whether a search of `files` can end with the answer `found`: at the first one
/// that can be executed, or behind the last.
pub open spec fn searched<F: Fn(&str) -> FileFacts>(
    files: Seq<Seq<char>>,
    probe: F,
    found: bool,
) -> bool {
    exists|k: int|
        {
            &&& 0 <= k <= files.len()
            &&& #[trigger] none_of(files, k, probe)
            &&& if found {
                k < files.len() && probed(probe, files[k], true)
            } else {
                k == files.len()
            }
        }
}

/// Whether `probe` can deny each of the first `k` files.
pub open spec fn none_of<F: Fn(&str) -> FileFacts>(
    files: Seq<Seq<char>>,
    k: int,
    probe: F,
) -> bool {
    forall|j: int| 0 <= j < k ==> #[trigger] probed(probe, files[j], false)
}

/// Whether a command is an executable file: by its path, or in a directory of the
/// search path under its name or with one of the extensions of programs.
pub fn which_on_path<F>(cmd: &str, dirs: &Vec<String>, exts: &Vec<String>, probe: F) -> (r:
    bool) where F: Fn(&str) -> FileFacts
    requires
        forall|s: &str| call_requires(probe, (s,)),
    ensures
        searched(candidates(cmd@, text::texts(dirs@), text::texts(exts@)), probe, r),
{
    let files = which_candidates(cmd, dirs, exts);
    let ghost all = text::texts(files@);
    let mut i: usize = 0;
    while i < files.len()
        invariant
            i <= files@.len(),
            all == text::texts(files@),
            all == candidates(cmd@, text::texts(dirs@), text::texts(exts@)),
            forall|s: &str| call_requires(probe, (s,)),
            none_of(all, i as int, probe),
        decreases files@.len() - i,
    {
        let facts = probe(files[i].as_str());
        let yes = is_executable(facts);
        assert(probed(probe, all[i as int], yes));
        if yes {
            assert(searched(all, probe, true));
            return true;
        }
        i += 1;
    }
    assert(none_of(all, all.len() as int, probe));
    false
}

/// A command is not there where no file that it may be can be executed.
pub proof fn law_only_executables_count<F>(files: Seq<Seq<char>>, probe: F)
    where F: Fn(&str) -> FileFacts
    requires
        forall|k: int| 0 <= k < files.len() ==> !probed(probe, #[trigger] files[k], true),
    ensures
        !searched(files, probe, true),
{
}

} // verus!
