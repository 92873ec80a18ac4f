//! Strings as sequences of characters: the few operations the rest of the
//! library builds its texts from, and byte offsets into UTF-8 text.
use vstd::prelude::*;
use vstd::utf8;

verus! {

/// `String::push` appends one character to the end of the string.
pub assume_specification[ String::push ](s: &mut String, c: char)
    ensures
        final(s)@ == old(s)@.push(c),
;

/// The texts of a list of strings.
pub open spec fn texts(v: Seq<String>) -> Seq<Seq<char>> {
    Seq::new(v.len(), |i: int| v[i]@)
}

/// The number of bytes that UTF-8 spends on `c`.
pub open spec fn utf8_width(c: char) -> nat {
    let v = c as u32;
    if v < 0x80 {
        1
    } else if v < 0x800 {
        2
    } else if v < 0x10000 {
        3
    } else {
        4
    }
}

/// The number of bytes that UTF-8 spends on `s`.
pub open spec fn byte_len(s: Seq<char>) -> nat
    decreases s.len(),
{
    if s.len() == 0 {
        0
    } else {
        byte_len(s.drop_last()) + utf8_width(s.last())
    }
}

/// Whether `offset` bytes into `s` a character starts or the text ends.
pub open spec fn is_boundary(s: Seq<char>, offset: int) -> bool {
    exists|k: int| 0 <= k <= s.len() && #[trigger] byte_len(s.take(k)) == offset
}

/// How many characters of `s` stand before the byte `offset`.
pub open spec fn chars_before(s: Seq<char>, offset: int) -> int {
    choose|k: int| 0 <= k <= s.len() && #[trigger] byte_len(s.take(k)) == offset
}

pub proof fn lemma_byte_len_push(s: Seq<char>, c: char)
    ensures
        byte_len(s.push(c)) == byte_len(s) + utf8_width(c),
{
    assert(s.push(c).drop_last() =~= s);
}

pub proof fn lemma_byte_len_concat(a: Seq<char>, b: Seq<char>)
    ensures
        byte_len(a + b) == byte_len(a) + byte_len(b),
    decreases b.len(),
{
    if b.len() == 0 {
        assert(a + b =~= a);
    } else {
        lemma_byte_len_concat(a, b.drop_last());
        assert((a + b).drop_last() =~= a + b.drop_last());
    }
}

pub proof fn lemma_byte_len_take_step(s: Seq<char>, k: int)
    requires
        0 <= k < s.len(),
    ensures
        byte_len(s.take(k + 1)) == byte_len(s.take(k)) + utf8_width(s[k]),
{
    assert(s.take(k + 1) =~= s.take(k).push(s[k]));
    lemma_byte_len_push(s.take(k), s[k]);
}

/// Later positions lie at larger byte offsets.
pub proof fn lemma_byte_len_take_monotonic(s: Seq<char>, j: int, k: int)
    requires
        0 <= j <= k <= s.len(),
    ensures
        byte_len(s.take(j)) <= byte_len(s.take(k)),
        byte_len(s.take(j)) == byte_len(s.take(k)) ==> j == k,
    decreases k - j,
{
    if j < k {
        lemma_byte_len_take_monotonic(s, j, k - 1);
        lemma_byte_len_take_step(s, k - 1);
    }
}

/// A byte offset belongs to one position only.
pub proof fn lemma_chars_before(s: Seq<char>, k: int)
    requires
        0 <= k <= s.len(),
    ensures
        is_boundary(s, byte_len(s.take(k)) as int),
        chars_before(s, byte_len(s.take(k)) as int) == k,
{
    let offset = byte_len(s.take(k)) as int;
    let j = chars_before(s, offset);
    assert(0 <= j <= s.len() && byte_len(s.take(j)) == offset);
    if j < k {
        lemma_byte_len_take_monotonic(s, j, k);
    } else {
        lemma_byte_len_take_monotonic(s, k, j);
    }
}

/// `byte_len` is the length of the UTF-8 encoding.
pub proof fn lemma_byte_len_is_encoded_len(s: Seq<char>)
    ensures
        utf8::encode_utf8(s).len() == byte_len(s),
    decreases s.len(),
{
    if s.len() > 0 {
        lemma_byte_len_is_encoded_len(s.drop_first());
        assert(s =~= seq![s[0]] + s.drop_first());
        lemma_byte_len_concat(seq![s[0]], s.drop_first());
        assert(seq![s[0]].drop_last() =~= Seq::<char>::empty());
        assert(byte_len(seq![s[0]].drop_last()) == 0);
        utf8::char_is_scalar(s[0]);
        assert(utf8::encode_scalar(s[0] as u32).len() == utf8_width(s[0]));
    }
}

/// Two texts with the same UTF-8 bytes are the same text.
pub proof fn lemma_encode_injective(a: Seq<char>, b: Seq<char>)
    requires
        utf8::encode_utf8(a) == utf8::encode_utf8(b),
    ensures
        a == b,
{
    utf8::encode_utf8_decode_utf8(a);
    utf8::encode_utf8_decode_utf8(b);
}

/// Whether two texts are equal.
pub fn str_eq(a: &str, b: &str) -> (r: bool)
    ensures
        r == (a@ == b@),
{
    let x = a.as_bytes();
    let y = b.as_bytes();
    if x.len() != y.len() {
        return false;
    }
    let mut i: usize = 0;
    while i < x.len()
        invariant
            x@ == utf8::encode_utf8(a@),
            y@ == utf8::encode_utf8(b@),
            x@.len() == y@.len(),
            i <= x@.len(),
            forall|j: int| 0 <= j < i ==> x@[j] == y@[j],
        decreases x@.len() - i,
    {
        if x[i] != y[i] {
            return false;
        }
        i += 1;
    }
    proof {
        assert(x@ =~= y@);
        lemma_encode_injective(a@, b@);
    }
    true
}

/// The number of bytes that UTF-8 spends on `s`.
pub fn byte_count(s: &str) -> (r: usize)
    ensures
        r == byte_len(s@),
{
    proof {
        lemma_byte_len_is_encoded_len(s@);
    }
    s.as_bytes().len()
}

/// The characters of `s`, in order.
pub fn to_chars(s: &str) -> (r: Vec<char>)
    ensures
        r@ == s@,
{
    let mut out: Vec<char> = Vec::new();
    for c in it: s.chars()
        invariant
            it.seq() == s@,
            out@ == s@.take(it.index()),
    {
        out.push(c);
    }
    out
}

/// The text made of `chars`.
pub fn from_chars(chars: &Vec<char>, start: usize, end: usize) -> (r: String)
    requires
        start <= end <= chars@.len(),
    ensures
        r@ == chars@.subrange(start as int, end as int),
{
    let mut out = String::new();
    let mut i: usize = start;
    while i < end
        invariant
            start <= i <= end <= chars@.len(),
            out@ == chars@.subrange(start as int, i as int),
        decreases end - i,
    {
        out.push(chars[i]);
        i += 1;
    }
    out
}

/// How many characters of `s` stand before the byte `offset`.
pub fn char_position(s: &str, offset: usize) -> (k: usize)
    requires
        is_boundary(s@, offset as int),
    ensures
        k <= s@.len(),
        byte_len(s@.take(k as int)) == offset,
        k == chars_before(s@, offset as int),
{
    let chars = to_chars(s);
    let ghost target = chars_before(s@, offset as int);
    let mut k: usize = 0;
    let mut at: usize = 0;
    proof {
        assert(s@.take(0) =~= Seq::<char>::empty());
        assert(byte_len(s@.take(target)) == offset);
    }
    while at < offset
        invariant
            chars@ == s@,
            k <= target <= s@.len(),
            at == byte_len(s@.take(k as int)),
            byte_len(s@.take(target)) == offset,
        decreases target - k,
    {
        proof {
            lemma_byte_len_take_monotonic(s@, k as int, target);
            lemma_byte_len_take_step(s@, k as int);
            lemma_byte_len_take_monotonic(s@, k as int + 1, target);
        }
        at += char_width(chars[k]);
        k += 1;
    }
    proof {
        lemma_byte_len_take_monotonic(s@, k as int, target);
    }
    k
}

/// `s` with `c` put in at the character position `k`.
pub fn insert_char(s: &str, k: usize, c: char) -> (r: String)
    requires
        k <= s@.len(),
    ensures
        r@ == s@.insert(k as int, c),
{
    let n: usize = s.unicode_len();
    let mut out = String::from_str(s.substring_char(0, k));
    out.push(c);
    out.append(s.substring_char(k, n));
    proof {
        assert(out@ =~= s@.insert(k as int, c));
    }
    out
}

/// `s` without its character at position `k`.
pub fn remove_char(s: &str, k: usize) -> (r: String)
    requires
        k < s@.len(),
    ensures
        r@ == s@.remove(k as int),
{
    let n: usize = s.unicode_len();
    let mut out = String::from_str(s.substring_char(0, k));
    out.append(s.substring_char(k + 1, n));
    proof {
        assert(out@ =~= s@.remove(k as int));
    }
    out
}

/// The number of bytes that UTF-8 spends on `c`.
pub fn char_width(c: char) -> (r: usize)
    ensures
        r == utf8_width(c),
{
    let v: u32 = c as u32;
    if v < 0x80 {
        1
    } else if v < 0x800 {
        2
    } else if v < 0x10000 {
        3
    } else {
        4
    }
}

} // verus!
