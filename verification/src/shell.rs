//! Texts in a shell command.
use crate::text;
use vstd::prelude::*;

verus! {

/// A text between single quotes, each quote in it as `'\''`.
pub open spec fn quoted_body(s: Seq<char>) -> Seq<char>
    decreases s.len(),
{
    if s.len() == 0 {
        s
    } else if s.last() == '\'' {
        quoted_body(s.drop_last()) + seq!['\'', '\\', '\'', '\'']
    } else {
        quoted_body(s.drop_last()).push(s.last())
    }
}

/// A text as one word of a shell command.
pub open spec fn quoted(s: Seq<char>) -> Seq<char> {
    seq!['\''] + quoted_body(s) + seq!['\'']
}

/// The text that a POSIX shell reads from `s`, which starts inside or outside
/// of single quotes: quotes are taken off, and outside of them a backslash
/// gives the next character. None where the quotes do not close, or where a
/// character stands unquoted that a shell may treat in other ways.
pub open spec fn shell_reads(s: Seq<char>, inside: bool) -> Option<Seq<char>>
    decreases s.len(),
{
    if s.len() == 0 {
        if inside {
            None
        } else {
            Some(s)
        }
    } else if s[0] == '\'' {
        shell_reads(s.skip(1), !inside)
    } else if inside {
        with_first(s[0], shell_reads(s.skip(1), true))
    } else if s[0] == '\\' && s.len() > 1 {
        with_first(s[1], shell_reads(s.skip(2), false))
    } else {
        None
    }
}

pub open spec fn with_first(c: char, rest: Option<Seq<char>>) -> Option<Seq<char>> {
    match rest {
        Some(t) => Some(seq![c] + t),
        None => None,
    }
}

/// The body of a quoted text, put together from its front.
proof fn lemma_body_front(s: Seq<char>)
    requires
        s.len() > 0,
    ensures
        quoted_body(s) == (if s[0] == '\'' {
            seq!['\'', '\\', '\'', '\'']
        } else {
            seq![s[0]]
        }) + quoted_body(s.skip(1)),
    decreases s.len(),
{
    let head = if s[0] == '\'' {
        seq!['\'', '\\', '\'', '\'']
    } else {
        seq![s[0]]
    };
    if s.len() == 1 {
        assert(s.drop_last() =~= Seq::<char>::empty());
        assert(s.skip(1) =~= Seq::<char>::empty());
        assert(quoted_body(s) =~= head + quoted_body(s.skip(1)));
    } else {
        lemma_body_front(s.drop_last());
        assert(s.drop_last().skip(1) =~= s.skip(1).drop_last());
        assert(quoted_body(s) =~= head + quoted_body(s.skip(1)));
    }
}

proof fn lemma_reads_body(s: Seq<char>)
    ensures
        shell_reads(quoted_body(s) + seq!['\''], true) == Some(s),
    decreases s.len(),
{
    let q = quoted_body(s) + seq!['\''];
    if s.len() == 0 {
        assert(q =~= seq!['\'']);
        assert(q.skip(1) =~= s);
        assert(shell_reads(q.skip(1), false) == Some(q.skip(1)));
    } else {
        lemma_body_front(s);
        lemma_reads_body(s.skip(1));
        let tail = quoted_body(s.skip(1)) + seq!['\''];
        assert(seq![s[0]] + s.skip(1) =~= s);
        if s[0] == '\'' {
            assert(q =~= seq!['\'', '\\', '\'', '\''] + tail);
            let q1 = q.skip(1);
            let q3 = q1.skip(2);
            assert(q1[0] == '\\' && q1[1] == '\'');
            assert(q3[0] == '\'');
            assert(q3.skip(1) =~= tail);
            assert(shell_reads(q3, false) == Some(s.skip(1)));
            assert(shell_reads(q1, false) == Some(seq!['\''] + s.skip(1)));
            assert(q[0] == '\'');
            assert(shell_reads(q, true) == shell_reads(q1, false));
        } else {
            assert(q =~= seq![s[0]] + tail);
            assert(q.skip(1) =~= tail);
        }
    }
}

/// A shell reads a quoted text as one word, and that word is the text.
pub proof fn law_shell_reads_quoted(s: Seq<char>)
    ensures
        shell_reads(quoted(s), false) == Some(s),
{
    let q = quoted(s);
    lemma_reads_body(s);
    assert(q[0] == '\'');
    assert(q.skip(1) =~= quoted_body(s) + seq!['\'']);
}

/// Quotes a text as one word of a shell command.
pub fn shell_quote(s: &str) -> (r: String)
    ensures
        r@ == quoted(s@),
{
    let chars = text::to_chars(s);
    let n: usize = chars.len();
    let mut out = String::new();
    out.push('\'');
    let mut i: usize = 0;
    assert(out@ =~= seq!['\''] + quoted_body(s@.take(0)));
    while i < n
        invariant
            chars@ == s@,
            n == s@.len(),
            i <= n,
            out@ == seq!['\''] + quoted_body(s@.take(i as int)),
        decreases n - i,
    {
        let ghost before = out@;
        let c = chars[i];
        if c == '\'' {
            out.push('\'');
            out.push('\\');
            out.push('\'');
            out.push('\'');
        } else {
            out.push(c);
        }
        proof {
            assert(s@.take(i as int + 1).drop_last() =~= s@.take(i as int));
            assert(s@.take(i as int + 1).last() == c);
            assert(out@ =~= seq!['\''] + quoted_body(s@.take(i as int + 1)));
        }
        i += 1;
    }
    out.push('\'');
    proof {
        assert(s@.take(i as int) =~= s@);
        assert(out@ =~= quoted(s@));
    }
    out
}

/// The command line that follows the file `path` from its start.
pub open spec fn tail_command_text(path: Seq<char>) -> Seq<char> {
    "clear && tail --lines=+1 -F "@ + quoted(path) + seq!['\n']
}

/// The command line that follows the file `path` from its start.
pub fn tail_command(path: &str) -> (r: String)
    ensures
        r@ == tail_command_text(path@),
{
    let mut out = String::from_str("clear && tail --lines=+1 -F ");
    out.append(shell_quote(path).as_str());
    out.push('\n');
    assert(out@ =~= tail_command_text(path@));
    out
}

/// The command line that opens `path` at `line` in the editor of the shell's
/// own environment, from the directory `cwd` if one is given. The path is not
/// quoted, so that the shell expands `~`.
pub open spec fn editor_command_text(
    path: Seq<char>,
    line: Seq<char>,
    cwd: Option<Seq<char>>,
) -> Seq<char> {
    (match cwd {
        Some(dir) => "cd "@ + quoted(dir) + " && "@,
        None => seq![],
    }) + "clear && exec ${EDITOR:-${VISUAL:-nvim}} "@ + path + " +"@ + line + seq!['\n']
}

/// The command line that opens `path` at `line` in the editor of the shell's
/// own environment.
pub fn editor_command(path: &str, line: &str, cwd: Option<&str>) -> (r: String)
    ensures
        r@ == editor_command_text(
            path@,
            line@,
            match cwd {
                Some(d) => Some(d@),
                None => None,
            },
        ),
{
    let mut out = String::new();
    if let Some(dir) = cwd {
        out.append("cd ");
        out.append(shell_quote(dir).as_str());
        out.append(" && ");
    }
    out.append("clear && exec ${EDITOR:-${VISUAL:-nvim}} ");
    out.append(path);
    out.append(" +");
    out.append(line);
    out.push('\n');
    assert(out@ =~= editor_command_text(
        path@,
        line@,
        match cwd {
            Some(d) => Some(d@),
            None => None,
        },
    ));
    out
}

/// The command line that opens the file `path` at `line` in `editor`, which may
/// hold arguments of its own.
pub open spec fn launch_command_text(
    editor: Seq<char>,
    path: Seq<char>,
    line: Seq<char>,
) -> Seq<char> {
    "clear && exec "@ + editor + " +"@ + line + " "@ + quoted(path) + seq!['\n']
}

/// The command line that opens the file `path` at `line` in `editor`.
pub fn launch_command(editor: &str, path: &str, line: &str) -> (r: String)
    ensures
        r@ == launch_command_text(editor@, path@, line@),
{
    let mut out = String::from_str("clear && exec ");
    out.append(editor);
    out.append(" +");
    out.append(line);
    out.append(" ");
    out.append(shell_quote(path).as_str());
    out.push('\n');
    assert(out@ =~= launch_command_text(editor@, path@, line@));
    out
}

/// Text is quoted character by character: a single quote closes the quotes, stands
/// behind a backslash and opens them again; any other character stands for itself.
pub proof fn law_quoted_piece_by_piece(a: Seq<char>, b: Seq<char>, c: char)
    ensures
        quoted_body(a + b) == quoted_body(a) + quoted_body(b),
        quoted_body(seq![c]) == if c == '\'' {
            seq!['\'', '\\', '\'', '\'']
        } else {
            seq![c]
        },
        quoted(a).first() == '\'',
        quoted(a).last() == '\'',
        quoted(a) == seq!['\''] + quoted_body(a) + seq!['\''],
    decreases b.len(),
{
    reveal_with_fuel(quoted_body, 2);
    assert(seq![c].drop_last() =~= Seq::<char>::empty());
    assert(quoted_body(seq![c]) =~= if c == '\'' {
        seq!['\'', '\\', '\'', '\'']
    } else {
        seq![c]
    });
    if b.len() == 0 {
        assert(a + b =~= a);
        assert(quoted_body(a) + quoted_body(b) =~= quoted_body(a));
    } else {
        law_quoted_piece_by_piece(a, b.drop_last(), c);
        assert((a + b).drop_last() =~= a + b.drop_last());
        assert(quoted_body(a + b) =~= quoted_body(a) + quoted_body(b));
    }
}

/// The command lines end with a line break, name the file as one word (but for the
/// editor of the shell's environment, which gets it as it is), and start with what is
/// to be run.
pub proof fn law_command_lines(
    path: Seq<char>,
    line: Seq<char>,
    editor: Seq<char>,
    dir: Seq<char>,
)
    ensures
        (quoted(path) + seq!['\n']).is_suffix_of(tail_command_text(path)),
        (quoted(path) + seq!['\n']).is_suffix_of(launch_command_text(editor, path, line)),
        ("clear && exec "@ + editor + " +"@ + line).is_prefix_of(
            launch_command_text(editor, path, line),
        ),
        launch_command_text(editor, path, line).len() == ("clear && exec "@ + editor + " +"@
            + line).len() + 1 + (quoted(path) + seq!['\n']).len(),
        (path + " +"@ + line + seq!['\n']).is_suffix_of(editor_command_text(path, line, None)),
        ("cd "@ + quoted(dir)).is_prefix_of(editor_command_text(path, line, Some(dir))),
        editor_command_text(path, line, Some(dir)) == "cd "@ + quoted(dir) + " && "@
            + editor_command_text(path, line, None),
        "clear && tail --lines=+1 -F "@.is_prefix_of(tail_command_text(path)),
        "clear && exec ${EDITOR:-${VISUAL:-nvim}} "@.is_prefix_of(
            editor_command_text(path, line, None),
        ),
{
    reveal_strlit(" ");
    let t = tail_command_text(path);
    let q = quoted(path) + seq!['\n'];
    assert(q =~= t.subrange(t.len() - q.len(), t.len() as int));
    let l = launch_command_text(editor, path, line);
    let head = "clear && exec "@ + editor + " +"@ + line;
    assert(q =~= l.subrange(l.len() - q.len(), l.len() as int));
    assert(head =~= l.take(head.len() as int));
    let e = editor_command_text(path, line, None);
    let tail = path + " +"@ + line + seq!['\n'];
    assert(tail =~= e.subrange(e.len() - tail.len(), e.len() as int));
    let c = editor_command_text(path, line, Some(dir));
    let cd = "cd "@ + quoted(dir);
    assert(cd =~= c.take(cd.len() as int));
    assert(c =~= cd + " && "@ + e);
    let run = "clear && tail --lines=+1 -F "@;
    assert(run =~= t.take(run.len() as int));
    let edit = "clear && exec ${EDITOR:-${VISUAL:-nvim}} "@;
    assert(edit =~= e.take(edit.len() as int));
}

} // verus!
