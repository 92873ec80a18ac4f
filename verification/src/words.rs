//! Words of a command line and components of a path.
use crate::text;
use vstd::prelude::*;

verus! {

/// The characters that Unicode counts as white space.
pub open spec fn is_white_space(c: char) -> bool {
    let v = c as u32;
    ||| 0x9 <= v <= 0xd
    ||| v == 0x20
    ||| v == 0x85
    ||| v == 0xa0
    ||| v == 0x1680
    ||| 0x2000 <= v <= 0x200a
    ||| v == 0x2028
    ||| v == 0x2029
    ||| v == 0x202f
    ||| v == 0x205f
    ||| v == 0x3000
}

fn white_space(c: char) -> (r: bool)
    ensures
        r == is_white_space(c),
{
    let v: u32 = c as u32;
    (0x9 <= v && v <= 0xd) || v == 0x20 || v == 0x85 || v == 0xa0 || v == 0x1680 || (0x2000 <= v
        && v <= 0x200a) || v == 0x2028 || v == 0x2029 || v == 0x202f || v == 0x205f || v == 0x3000
}

/// Where the first character that is not white space stands, or the end.
pub open spec fn word_start(s: Seq<char>, from: int) -> int
    decreases s.len() - from,
{
    if from >= s.len() {
        s.len() as int
    } else if is_white_space(s[from]) {
        word_start(s, from + 1)
    } else {
        from
    }
}

/// Where the next white space stands, or the end.
pub open spec fn word_end(s: Seq<char>, from: int) -> int
    decreases s.len() - from,
{
    if from >= s.len() {
        s.len() as int
    } else if is_white_space(s[from]) {
        from
    } else {
        word_end(s, from + 1)
    }
}

/// The first word of `s`; empty where `s` is all white space.
pub open spec fn first_word(s: Seq<char>) -> Seq<char> {
    let start = word_start(s, 0);
    s.subrange(start, word_end(s, start))
}

proof fn lemma_word_bounds(s: Seq<char>, from: int)
    requires
        0 <= from <= s.len(),
    ensures
        from <= word_start(s, from) <= s.len(),
        from <= word_end(s, from) <= s.len(),
    decreases s.len() - from,
{
    if from < s.len() {
        lemma_word_bounds(s, from + 1);
    }
}

/// The first word of a command line.
pub fn head_word(s: &str) -> (r: String)
    ensures
        r@ == first_word(s@),
{
    let chars = text::to_chars(s);
    let n: usize = chars.len();
    let mut start: usize = 0;
    while start < n && white_space(chars[start])
        invariant
            chars@ == s@,
            n == s@.len(),
            start <= n,
            word_start(s@, 0) == word_start(s@, start as int),
        decreases n - start,
    {
        start += 1;
    }
    let mut end: usize = start;
    while end < n && !white_space(chars[end])
        invariant
            chars@ == s@,
            n == s@.len(),
            start <= end <= n,
            word_end(s@, start as int) == word_end(s@, end as int),
        decreases n - end,
    {
        end += 1;
    }
    proof {
        lemma_word_bounds(s@, 0);
        lemma_word_bounds(s@, start as int);
        assert(word_start(s@, start as int) == start);
        assert(word_end(s@, end as int) == end);
    }
    text::from_chars(&chars, start, end)
}

/// Where the part of `s` behind its last `/` starts.
pub open spec fn after_slash(s: Seq<char>) -> int
    decreases s.len(),
{
    if s.len() == 0 || s.last() == '/' {
        s.len() as int
    } else {
        after_slash(s.drop_last())
    }
}

proof fn lemma_after_slash(s: Seq<char>)
    ensures
        0 <= after_slash(s) <= s.len(),
        s.len() > 0 && s.last() != '/' ==> after_slash(s) < s.len(),
    decreases s.len(),
{
    if s.len() > 0 && s.last() != '/' {
        lemma_after_slash(s.drop_last());
    }
}

/// The last component of a path. Repeated slashes, slashes at the end and `.`
/// behind a slash do not count.
pub open spec fn last_component(s: Seq<char>) -> Seq<char>
    decreases s.len(),
{
    if s.len() == 0 {
        s
    } else if s.last() == '/' {
        last_component(s.drop_last())
    } else {
        let i = after_slash(s);
        let c = s.skip(i);
        if c == seq!['.'] && 0 < i < s.len() {
            last_component(s.take(i))
        } else {
            c
        }
    }
}

/// The file name at the end of a path: none for the root, for `.` and for
/// `..`.
pub open spec fn file_name(s: Seq<char>) -> Option<Seq<char>> {
    let c = last_component(s);
    if c.len() == 0 || c == seq!['.'] || c == seq!['.', '.'] {
        None
    } else {
        Some(c)
    }
}

/// The file name at the end of a path, or the whole path where it has none.
pub open spec fn base_name(s: Seq<char>) -> Seq<char> {
    match file_name(s) {
        Some(c) => c,
        None => s,
    }
}

/// The file name at the end of a path whose components are parted by `/`.
pub fn path_file_name(s: &str) -> (r: Option<String>)
    ensures
        r is Some <==> file_name(s@) is Some,
        r matches Some(c) ==> Some(c@) == file_name(s@),
{
    let chars = text::to_chars(s);
    let mut end: usize = chars.len();
    assert(s@.take(end as int) =~= s@);
    loop
        invariant
            chars@ == s@,
            end <= s@.len(),
            last_component(s@) == last_component(s@.take(end as int)),
        decreases end,
    {
        let ghost cur = s@.take(end as int);
        if end == 0 {
            return None;
        }
        if chars[end - 1] == '/' {
            assert(cur.drop_last() =~= s@.take(end as int - 1));
            end -= 1;
            continue ;
        }
        let mut start: usize = end;
        while start > 0 && chars[start - 1] != '/'
            invariant
                chars@ == s@,
                start <= end <= s@.len(),
                cur == s@.take(end as int),
                after_slash(cur) == after_slash(s@.take(start as int)),
            decreases start,
        {
            assert(s@.take(start as int).drop_last() =~= s@.take(start as int - 1));
            start -= 1;
        }
        proof {
            lemma_after_slash(cur);
            assert(after_slash(s@.take(start as int)) == start);
            assert(cur.skip(start as int) =~= s@.subrange(start as int, end as int));
        }
        let ghost c = s@.subrange(start as int, end as int);
        if end - start == 1 && chars[start] == '.' {
            assert(c =~= seq!['.']);
            if start > 0 {
                assert(cur.take(start as int) =~= s@.take(start as int));
                end = start;
                continue ;
            }
            return None;
        }
        if end - start == 2 && chars[start] == '.' && chars[start + 1] == '.' {
            assert(c =~= seq!['.', '.']);
            return None;
        }
        proof {
            if c == seq!['.'] {
                assert(c[0] == '.');
            }
            if c == seq!['.', '.'] {
                assert(c[0] == '.' && c[1] == '.');
            }
        }
        return Some(text::from_chars(&chars, start, end));
    }
}

/// The file name at the end of a path, or the whole path where it has none.
pub fn path_base_name(s: &str) -> (r: String)
    ensures
        r@ == base_name(s@),
{
    match path_file_name(s) {
        Some(c) => c,
        None => String::from_str(s),
    }
}

/// The first word stands between white space; a text of white space has none.
pub proof fn law_first_word(before: Seq<char>, word: Seq<char>, behind: Seq<char>)
    requires
        forall|i: int| 0 <= i < before.len() ==> is_white_space(#[trigger] before[i]),
        forall|i: int| 0 <= i < word.len() ==> !is_white_space(#[trigger] word[i]),
        word.len() == 0 ==> behind.len() == 0,
        behind.len() > 0 ==> is_white_space(behind[0]),
    ensures
        first_word(before + word + behind) == word,
{
    let s = before + word + behind;
    lemma_word_start(s, 0, before.len() as int);
    lemma_word_end(s, before.len() as int, (before.len() + word.len()) as int);
    assert(first_word(s) =~= word);
}

proof fn lemma_word_start(s: Seq<char>, from: int, to: int)
    requires
        0 <= from <= to <= s.len(),
        forall|i: int| from <= i < to ==> is_white_space(#[trigger] s[i]),
        to < s.len() ==> !is_white_space(s[to]),
    ensures
        word_start(s, from) == to,
    decreases to - from,
{
    if from < to {
        lemma_word_start(s, from + 1, to);
    }
}

proof fn lemma_word_end(s: Seq<char>, from: int, to: int)
    requires
        0 <= from <= to <= s.len(),
        forall|i: int| from <= i < to ==> !is_white_space(#[trigger] s[i]),
        to < s.len() ==> is_white_space(s[to]),
    ensures
        word_end(s, from) == to,
    decreases to - from,
{
    if from < to {
        lemma_word_end(s, from + 1, to);
    }
}

/// Of the ASCII characters the space and the control characters from the tab to the
/// carriage return are white space, and no other.
pub proof fn law_ascii_white_space(c: char)
    requires
        (c as u32) < 0x80,
    ensures
        is_white_space(c) <==> c == ' ' || '\t' <= c <= '\r',
{
}

/// A name behind a slash is the last component, whatever stands before.
pub proof fn law_name_behind_a_slash(dir: Seq<char>, name: Seq<char>)
    requires
        name.len() > 0,
        !name.contains('/'),
    ensures
        name != seq!['.'] ==> last_component(dir.push('/') + name) == name,
        name != seq!['.'] && name != seq!['.', '.'] ==> {
            &&& file_name(dir.push('/') + name) == Some(name)
            &&& base_name(dir.push('/') + name) == name
        },
        name == seq!['.', '.'] ==> {
            &&& file_name(dir.push('/') + name) is None
            &&& base_name(dir.push('/') + name) == dir.push('/') + name
        },
{
    let s = dir.push('/') + name;
    lemma_name_starts(dir.push('/'), name);
    assert(s.skip(dir.len() as int + 1) =~= name);
    assert(s.last() == name.last());
    assert(name.contains(name[name.len() - 1]));
}

proof fn lemma_name_starts(head: Seq<char>, name: Seq<char>)
    requires
        head.len() > 0 ==> head.last() == '/',
        !name.contains('/'),
    ensures
        after_slash(head + name) == head.len(),
    decreases name.len(),
{
    if name.len() > 0 {
        let s = head + name;
        assert(name.contains(name[name.len() - 1]));
        assert(s.drop_last() =~= head + name.drop_last());
        assert forall|c: char| name.drop_last().contains(c) implies name.contains(c) by {
            let k = choose|k: int| 0 <= k < name.drop_last().len() && name.drop_last()[k] == c;
            assert(name[k] == c);
        }
        lemma_name_starts(head, name.drop_last());
    } else {
        assert(head + name =~= head);
    }
}

/// Slashes at the end, and a `.` behind one, do not count.
pub proof fn law_slashes_at_the_end(s: Seq<char>)
    ensures
        last_component(s.push('/')) == last_component(s),
        last_component(s.push('/').push('.')) == last_component(s),
        file_name(s.push('/')) == file_name(s),
        file_name(s.push('/').push('.')) == file_name(s),
{
    assert(s.push('/').drop_last() =~= s);
    let t = s.push('/').push('.');
    let dot = seq!['.'];
    assert(t =~= s.push('/') + dot);
    assert(!dot.contains('/'));
    lemma_name_starts(s.push('/'), dot);
    assert(t.skip(s.len() as int + 1) =~= dot);
    assert(t.take(s.len() as int + 1) =~= s.push('/'));
}

/// A path without a slash is its own last component, and its own file name unless it
/// stands for a directory.
pub proof fn law_name_alone(s: Seq<char>)
    requires
        !s.contains('/'),
    ensures
        last_component(s) == s,
        base_name(s) == s,
        file_name(s) is None <==> s.len() == 0 || s == seq!['.'] || s == seq!['.', '.'],
{
    if s.len() > 0 {
        assert(s.contains(s[s.len() - 1]));
        let none = Seq::<char>::empty();
        assert(none + s =~= s);
        lemma_name_starts(none, s);
        assert(s.skip(0) =~= s);
    }
}

} // verus!
