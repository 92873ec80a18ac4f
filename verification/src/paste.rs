//! Text that is pasted into a terminal.
use crate::text;
use vstd::prelude::*;

verus! {

/// The text with `\r\n` and a lone `\r` turned into `\n`.
pub open spec fn normalized(s: Seq<char>) -> Seq<char>
    decreases s.len(),
{
    if s.len() == 0 {
        s
    } else if s[0] != '\r' {
        seq![s[0]] + normalized(s.skip(1))
    } else if s.len() > 1 && s[1] == '\n' {
        seq!['\n'] + normalized(s.skip(2))
    } else {
        seq!['\n'] + normalized(s.skip(1))
    }
}

/// A pasted text never holds a carriage return, which would submit a line.
pub proof fn law_no_carriage_return(s: Seq<char>)
    ensures
        !normalized(s).contains('\r'),
    decreases s.len(),
{
    if s.len() > 0 {
        let rest = if s[0] == '\r' && s.len() > 1 && s[1] == '\n' {
            s.skip(2)
        } else {
            s.skip(1)
        };
        law_no_carriage_return(rest);
        let n = normalized(s);
        assert forall|i: int| 0 <= i < n.len() implies n[i] != '\r' by {
            if i > 0 {
                assert(n[i] == normalized(rest)[i - 1]);
                assert(normalized(rest).contains(normalized(rest)[i - 1]));
            }
        }
    }
}

/// A text without carriage returns is pasted as it is.
pub proof fn law_plain_text_unchanged(s: Seq<char>)
    requires
        !s.contains('\r'),
    ensures
        normalized(s) == s,
    decreases s.len(),
{
    if s.len() > 0 {
        assert(s.contains(s[0]));
        assert forall|i: int| 0 <= i < s.skip(1).len() implies s.skip(1)[i] != '\r' by {
            assert(s.contains(s[i + 1]));
        }
        law_plain_text_unchanged(s.skip(1));
        assert(seq![s[0]] + s.skip(1) =~= s);
    }
}

/// Normalizing twice is normalizing once.
pub proof fn law_normalize_twice(s: Seq<char>)
    ensures
        normalized(normalized(s)) == normalized(s),
{
    law_no_carriage_return(s);
    law_plain_text_unchanged(normalized(s));
}

/// Normalizing never makes a text longer.
pub proof fn law_not_longer(s: Seq<char>)
    ensures
        normalized(s).len() <= s.len(),
    decreases s.len(),
{
    if s.len() > 0 {
        if s[0] == '\r' && s.len() > 1 && s[1] == '\n' {
            law_not_longer(s.skip(2));
        } else {
            law_not_longer(s.skip(1));
        }
    }
}

/// Texts can be normalized piece by piece, unless a cut falls between the two
/// characters of a `\r\n`.
pub proof fn law_piece_by_piece(a: Seq<char>, b: Seq<char>)
    requires
        a.len() == 0 || b.len() == 0 || a.last() != '\r' || b[0] != '\n',
    ensures
        normalized(a + b) == normalized(a) + normalized(b),
    decreases a.len(),
{
    let all = a + b;
    if a.len() == 0 {
        assert(all =~= b);
        assert(normalized(a) + normalized(b) =~= normalized(b));
    } else if a[0] == '\r' && a.len() > 1 && a[1] == '\n' {
        assert(all.skip(2) =~= a.skip(2) + b);
        law_piece_by_piece(a.skip(2), b);
        assert(normalized(all) =~= normalized(a) + normalized(b));
    } else {
        assert(all.skip(1) =~= a.skip(1) + b);
        if a.len() == 1 {
            assert(a.skip(1) =~= Seq::<char>::empty());
        } else {
            assert(all[1] == a[1]);
        }
        law_piece_by_piece(a.skip(1), b);
        assert(normalized(all) =~= normalized(a) + normalized(b));
    }
}

/// Each kind of line break is one `\n`, and any other character is itself.
pub proof fn law_one_break_each(c: char)
    ensures
        normalized(seq!['\r', '\n']) == seq!['\n'],
        normalized(seq![c]) == seq![
            if c == '\r' {
                '\n'
            } else {
                c
            },
        ],
{
    let pair = seq!['\r', '\n'];
    let one = seq![c];
    assert(pair.skip(2) =~= Seq::<char>::empty());
    assert(one.skip(1) =~= Seq::<char>::empty());
    assert(pair[0] == '\r' && pair[1] == '\n');
    assert(normalized(pair.skip(2)) =~= Seq::<char>::empty());
    assert(normalized(pair) == seq!['\n'] + normalized(pair.skip(2)));
    assert(normalized(pair) =~= seq!['\n']);
    assert(normalized(one) =~= seq![
        if c == '\r' {
            '\n'
        } else {
            c
        },
    ]);
}

/// How many lines end in a text: at a `\r\n`, a lone `\r` or a lone `\n`.
pub open spec fn breaks(s: Seq<char>) -> nat
    decreases s.len(),
{
    if s.len() == 0 {
        0
    } else {
        let ends = s.last() == '\r' || (s.last() == '\n' && !(s.len() > 1 && s[s.len() - 2]
            == '\r'));
        breaks(s.drop_last()) + (if ends {
            1nat
        } else {
            0nat
        })
    }
}

proof fn lemma_newlines_concat(a: Seq<char>, b: Seq<char>)
    ensures
        (a + b).filter(|c: char| c == '\n').len() == a.filter(|c: char| c == '\n').len() + b.filter(
            |c: char| c == '\n',
        ).len(),
{
    Seq::filter_distributes_over_add(a, b, |c: char| c == '\n');
}

/// No line break is lost and none is added: a pasted text has as many `\n` as the
/// text had line breaks of any kind.
pub proof fn law_breaks_are_kept(s: Seq<char>)
    ensures
        normalized(s).filter(|c: char| c == '\n').len() == breaks(s),
    decreases s.len(),
{
    reveal(Seq::filter);
    let is_break = |c: char| c == '\n';
    if s.len() > 0 {
        let front = s.drop_last();
        let last = seq![s.last()];
        assert(s =~= front + last);
        law_breaks_are_kept(front);
        law_one_break_each(s.last());
        if s.last() == '\n' && s.len() > 1 && s[s.len() - 2] == '\r' {
            let head = front.drop_last();
            let pair = seq!['\r', '\n'];
            assert(s =~= head + pair);
            law_piece_by_piece(head, pair);
            assert(front =~= head + seq!['\r']);
            law_one_break_each('\r');
            law_piece_by_piece(head, seq!['\r']);
            assert(normalized(s) == normalized(front));
        } else {
            law_piece_by_piece(front, last);
            let n = normalized(last);
            lemma_newlines_concat(normalized(front), n);
            assert(n.drop_last() =~= Seq::<char>::empty());
            assert(n.drop_last().filter(is_break).len() == 0);
        }
    }
}

/// Turns `\r\n` and a lone `\r` into `\n`, the line break that a terminal
/// program expects.
pub fn normalize_paste_text(input: &str) -> (r: String)
    ensures
        r@ == normalized(input@),
{
    let chars = text::to_chars(input);
    let n: usize = chars.len();
    let mut out = String::new();
    let mut i: usize = 0;
    proof {
        assert(input@.skip(0) =~= input@);
        assert(out@ + normalized(input@) =~= normalized(input@));
    }
    while i < n
        invariant
            chars@ == input@,
            n == input@.len(),
            i <= n,
            out@ + normalized(input@.skip(i as int)) == normalized(input@),
        decreases n - i,
    {
        let ghost rest = input@.skip(i as int);
        let ghost before = out@;
        let c = chars[i];
        i += 1;
        proof {
            assert(rest[0] == c);
            assert(rest.skip(1) =~= input@.skip(i as int));
        }
        if c == '\r' {
            if i < n && chars[i] == '\n' {
                assert(rest[1] == '\n');
                i += 1;
                assert(rest.skip(2) =~= input@.skip(i as int));
            }
            out.push('\n');
        } else {
            out.push(c);
        }
        proof {
            assert(out@ + normalized(input@.skip(i as int)) =~= before + normalized(rest));
        }
    }
    assert(out@ + normalized(input@.skip(i as int)) =~= out@);
    out
}

/// The bytes that start a bracketed paste: escape `[200~`.
pub open spec fn paste_start() -> Seq<u8> {
    seq![0x1b, 0x5b, 0x32, 0x30, 0x30, 0x7e]
}

/// The bytes that end a bracketed paste: escape `[201~`.
pub open spec fn paste_end() -> Seq<u8> {
    seq![0x1b, 0x5b, 0x32, 0x30, 0x31, 0x7e]
}

/// The bytes that start a bracketed paste.
pub fn start_mark() -> (r: Vec<u8>)
    ensures
        r@ == paste_start(),
{
    let r: Vec<u8> = vec![0x1b, 0x5b, 0x32, 0x30, 0x30, 0x7e];
    assert(r@ =~= paste_start());
    r
}

/// The bytes that end a bracketed paste.
pub fn end_mark() -> (r: Vec<u8>)
    ensures
        r@ == paste_end(),
{
    let r: Vec<u8> = vec![0x1b, 0x5b, 0x32, 0x30, 0x31, 0x7e];
    assert(r@ =~= paste_end());
    r
}

/// The two marks of a bracketed paste are escape sequences of one length that differ
/// in one digit: the paste starts with 200 and ends with 201.
pub proof fn law_paste_marks(i: int)
    requires
        0 <= i < 6,
    ensures
        paste_start().len() == 6,
        paste_end().len() == 6,
        paste_start()[0] == 27 && paste_start()[1] == '[' as u8 && paste_start()[5] == '~' as u8,
        paste_start()[2] == '2' as u8 && paste_start()[3] == '0' as u8 && paste_start()[4]
            == '0' as u8,
        i != 4 ==> paste_end()[i] == paste_start()[i],
        paste_end()[4] == '1' as u8,
{
}

} // verus!
