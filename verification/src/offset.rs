//! Byte offsets into text: how characters are counted in UTF-8 bytes.
use vstd::prelude::*;
use vstd::string::*;
use vstd::utf8::*;

use crate::text::chars_of;

verus! {

/// The number of bytes that a character takes in UTF-8.
pub open spec fn byte_width(c: char) -> nat {
    if c <= '\u{7f}' {
        1
    } else if c <= '\u{7ff}' {
        2
    } else if c <= '\u{ffff}' {
        3
    } else {
        4
    }
}

/// The number of bytes that a text takes in UTF-8.
pub open spec fn byte_len(s: Seq<char>) -> nat
    decreases s.len(),
{
    if s.len() == 0 {
        0
    } else {
        byte_len(s.drop_last()) + byte_width(s.last())
    }
}

pub proof fn lemma_byte_len_add(a: Seq<char>, b: Seq<char>)
    ensures
        byte_len(a + b) == byte_len(a) + byte_len(b),
    decreases b.len(),
{
    if b.len() == 0 {
        assert(a + b =~= a);
    } else {
        assert((a + b).drop_last() =~= a + b.drop_last());
        lemma_byte_len_add(a, b.drop_last());
    }
}

pub proof fn lemma_byte_len_push(s: Seq<char>, c: char)
    ensures
        byte_len(s.push(c)) == byte_len(s) + byte_width(c),
{
    assert(s.push(c).drop_last() =~= s);
}

/// Every character takes at least one byte.
pub proof fn lemma_byte_len_bound(s: Seq<char>)
    ensures
        s.len() <= byte_len(s) <= 4 * s.len(),
    decreases s.len(),
{
    if s.len() > 0 {
        lemma_byte_len_bound(s.drop_last());
    }
}

proof fn lemma_width_of_scalar(c: char)
    ensures
        byte_len(seq![c]) == encode_scalar(c as u32).len(),
{
    char_is_scalar(c);
    assert(seq![c].drop_last() =~= Seq::<char>::empty());
    assert(byte_len(seq![c]) == byte_width(c)) by {
        assert(byte_len(seq![c].drop_last()) == 0);
    }
    let u = c as u32;
    assert(u <= 0x7f <==> c <= '\u{7f}');
    assert(u <= 0x7ff <==> c <= '\u{7ff}');
    assert(u <= 0xffff <==> c <= '\u{ffff}');
    assert(byte_width(c) == encode_scalar(u).len());
}

/// The byte count agrees with the UTF-8 encoding.
pub proof fn lemma_byte_len_encode(s: Seq<char>)
    ensures
        byte_len(s) == encode_utf8(s).len(),
    decreases s.len(),
{
    if s.len() > 0 {
        let first = seq![s[0]];
        let rest = s.drop_first();
        assert(s =~= first + rest);
        lemma_byte_len_add(first, rest);
        lemma_byte_len_encode(rest);
        assert(first.drop_last() =~= Seq::<char>::empty());
        assert(byte_len(first.drop_last()) == 0);
        lemma_width_of_scalar(s[0]);
    }
}

pub proof fn lemma_byte_len_mono(s: Seq<char>, i: int, j: int)
    requires
        0 <= i <= j <= s.len(),
    ensures
        byte_len(s.take(i)) + (j - i) <= byte_len(s.take(j)),
        i < j ==> byte_len(s.take(i)) < byte_len(s.take(j)),
{
    assert(s.take(j) =~= s.take(i) + s.subrange(i, j));
    lemma_byte_len_add(s.take(i), s.subrange(i, j));
    lemma_byte_len_bound(s.subrange(i, j));
}

/// The offset behind any number of leading characters lies on a character
/// boundary of the encoded text.
pub proof fn lemma_prefix_boundary(a: Seq<char>, b: Seq<char>)
    ensures
        encode_utf8(a + b) == encode_utf8(a) + encode_utf8(b),
        is_char_boundary(encode_utf8(a + b), byte_len(a) as int),
    decreases a.len(),
{
    encode_utf8_valid_utf8(a + b);
    lemma_byte_len_encode(a);
    if a.len() == 0 {
        assert(a + b =~= b);
        assert(encode_utf8(a) + encode_utf8(b) =~= encode_utf8(b));
    } else {
        let rest = a.drop_first();
        lemma_prefix_boundary(rest, b);
        assert((a + b).drop_first() =~= rest + b);
        let head = encode_scalar(a[0] as u32);
        assert(encode_utf8(a + b) =~= head + (encode_utf8(rest) + encode_utf8(b)));
        assert(encode_utf8(a + b) =~= encode_utf8(a) + encode_utf8(b));
        encode_utf8_first_scalar(a + b);
        assert(pop_first_scalar(encode_utf8(a + b)) =~= encode_utf8(rest + b));
        lemma_byte_len_encode(rest);
        lemma_byte_len_bound(a);
        lemma_byte_len_encode(a + b);
        lemma_byte_len_add(a, b);
    }
}

/// The number of bytes of a character in UTF-8.
pub fn char_width(c: char) -> (r: usize)
    ensures
        r == byte_width(c),
{
    if c <= '\u{7f}' {
        1
    } else if c <= '\u{7ff}' {
        2
    } else if c <= '\u{ffff}' {
        3
    } else {
        4
    }
}

/// The number of bytes of a string.
pub fn byte_length(s: &str) -> (r: usize)
    ensures
        r == byte_len(s@),
{
    let bytes = s.as_bytes();
    proof {
        lemma_byte_len_encode(s@);
    }
    bytes.len()
}

/// The offset in bytes behind the first `k` characters of `s`.
pub fn byte_offset(s: &str, k: usize) -> (r: usize)
    requires
        k <= s@.len(),
    ensures
        r == byte_len(s@.take(k as int)),
        r <= byte_len(s@) <= usize::MAX,
{
    let total = byte_length(s);
    let chars = chars_of(s);
    let mut r: usize = 0;
    let mut i: usize = 0;
    assert(s@.take(s@.len() as int) =~= s@);
    assert(s@.take(0) =~= Seq::<char>::empty());
    while i < k
        invariant
            i <= k <= chars@.len(),
            chars@ == s@,
            r == byte_len(s@.take(i as int)),
            s@.take(s@.len() as int) == s@,
            total == byte_len(s@),
        decreases k - i,
    {
        proof {
            assert(s@.take(i + 1) =~= s@.take(i as int).push(s@[i as int]));
            lemma_byte_len_push(s@.take(i as int), s@[i as int]);
            lemma_byte_len_mono(s@, i + 1, s@.len() as int);
        }
        r = r + char_width(chars[i]);
        i += 1;
    }
    proof {
        lemma_byte_len_mono(s@, k as int, s@.len() as int);
    }
    r
}

/// Whether `offset` lies behind a whole number of characters of `s`.
pub open spec fn is_offset(s: Seq<char>, offset: int) -> bool {
    exists|k: int| 0 <= k <= s.len() && byte_len(#[trigger] s.take(k)) == offset
}

/// The number of characters before `offset`.
pub open spec fn chars_before(s: Seq<char>, offset: int) -> int {
    choose|k: int| 0 <= k <= s.len() && byte_len(#[trigger] s.take(k)) == offset
}

pub proof fn lemma_chars_before(s: Seq<char>, k: int)
    requires
        0 <= k <= s.len(),
    ensures
        is_offset(s, byte_len(s.take(k)) as int),
        chars_before(s, byte_len(s.take(k)) as int) == k,
{
    let offset = byte_len(s.take(k)) as int;
    let j = chars_before(s, offset);
    assert(0 <= j <= s.len() && byte_len(s.take(j)) == offset);
    if j < k {
        lemma_byte_len_mono(s, j, k);
    } else if k < j {
        lemma_byte_len_mono(s, k, j);
    }
}

/// The number of characters before a byte offset.
pub fn char_position(s: &str, offset: usize) -> (r: usize)
    requires
        is_offset(s@, offset as int),
    ensures
        r == chars_before(s@, offset as int),
        r <= s@.len(),
        byte_len(s@.take(r as int)) == offset,
{
    let chars = chars_of(s);
    let ghost k = chars_before(s@, offset as int);
    let mut at: usize = 0;
    let mut i: usize = 0;
    assert(s@.take(0) =~= Seq::<char>::empty());
    while at < offset
        invariant
            0 <= i <= k <= chars@.len(),
            chars@ == s@,
            at == byte_len(s@.take(i as int)),
            byte_len(s@.take(k)) == offset,
        decreases k - i,
    {
        proof {
            assert(i < k);
            assert(s@.take(i + 1) =~= s@.take(i as int).push(s@[i as int]));
            lemma_byte_len_push(s@.take(i as int), s@[i as int]);
            lemma_byte_len_mono(s@, i + 1, k);
        }
        at = at + char_width(chars[i]);
        i += 1;
    }
    proof {
        lemma_byte_len_mono(s@, i as int, k);
    }
    i
}

} // verus!
