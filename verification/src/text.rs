//! Text as sequences of characters: classification, comparison, trimming,
//! splitting and joining.
use vstd::prelude::*;
use vstd::string::*;
use vstd::utf8::*;

verus! {

/// `String::push` appends one character at the end.
pub assume_specification[ String::push ](s: &mut String, c: char)
    ensures
        final(s)@ == old(s)@.push(c),
;

/// The characters with the Unicode `White_Space` property.
pub open spec fn whitespace(c: char) -> bool {
    ||| '\u{9}' <= c <= '\u{d}'
    ||| c == ' '
    ||| c == '\u{85}'
    ||| c == '\u{a0}'
    ||| c == '\u{1680}'
    ||| '\u{2000}' <= c <= '\u{200a}'
    ||| c == '\u{2028}'
    ||| c == '\u{2029}'
    ||| c == '\u{202f}'
    ||| c == '\u{205f}'
    ||| c == '\u{3000}'
}

/// Tells whether a character is white space.
pub fn is_whitespace(c: char) -> (r: bool)
    ensures
        r == whitespace(c),
{
    ('\u{9}' <= c && c <= '\u{d}') || c == ' ' || c == '\u{85}' || c == '\u{a0}' || c == '\u{1680}'
        || ('\u{2000}' <= c && c <= '\u{200a}') || c == '\u{2028}' || c == '\u{2029}' || c
        == '\u{202f}' || c == '\u{205f}' || c == '\u{3000}'
}

/// A text without any white space.
pub open spec fn no_whitespace(s: Seq<char>) -> bool {
    forall|i: int| 0 <= i < s.len() ==> !whitespace(#[trigger] s[i])
}

/// The lower-case form of an ASCII letter; any other character stays.
pub open spec fn ascii_lower(c: char) -> char {
    if 'A' <= c <= 'Z' {
        ((c as u32) + 32) as char
    } else {
        c
    }
}

/// Two texts that differ at most in the case of ASCII letters.
pub open spec fn same_ignoring_case(a: Seq<char>, b: Seq<char>) -> bool {
    &&& a.len() == b.len()
    &&& forall|i: int| 0 <= i < a.len() ==> ascii_lower(#[trigger] a[i]) == ascii_lower(b[i])
}

/// The views of a list of strings.
pub open spec fn texts(v: Seq<String>) -> Seq<Seq<char>> {
    v.map_values(|s: String| s@)
}

/// The view of an optional string.
pub open spec fn opt_text(o: Option<String>) -> Option<Seq<char>> {
    match o {
        Some(s) => Some(s@),
        None => None,
    }
}

/// The view of an optional string slice.
pub open spec fn opt_str(o: Option<&str>) -> Option<Seq<char>> {
    match o {
        Some(s) => Some(s@),
        None => None,
    }
}

pub broadcast proof fn lemma_texts_push(v: Seq<String>, s: String)
    ensures
        #[trigger] texts(v.push(s)) == texts(v).push(s@),
{
    assert(texts(v.push(s)) =~= texts(v).push(s@));
}

/// The lower-case form of an ASCII letter.
pub fn to_ascii_lower(c: char) -> (r: char)
    ensures
        r == ascii_lower(c),
{
    if 'A' <= c && c <= 'Z' {
        let n: u8 = c as u8;
        (n + 32) as char
    } else {
        c
    }
}

/// The characters of a string, in order.
pub fn chars_of(s: &str) -> (r: Vec<char>)
    ensures
        r@ == s@,
{
    let mut r: Vec<char> = Vec::new();
    for c in it: s.chars()
        invariant
            r@ == it.seq().take(it.index() as int),
            it.seq() == s@,
    {
        r.push(c);
    }
    r
}

/// The string made of the characters of `v` in the range `[from, to)`.
pub fn string_of(v: &Vec<char>, from: usize, to: usize) -> (r: String)
    requires
        from <= to <= v@.len(),
    ensures
        r@ == v@.subrange(from as int, to as int),
{
    let mut r = String::new();
    let mut i: usize = from;
    while i < to
        invariant
            from <= i <= to <= v@.len(),
            r@ == v@.subrange(from as int, i as int),
        decreases to - i,
    {
        r.push(v[i]);
        i += 1;
    }
    r
}

/// Tells whether two strings hold the same characters.
pub fn str_eq(a: &str, b: &str) -> (r: bool)
    ensures
        r == (a@ == b@),
{
    let x = chars_of(a);
    let y = chars_of(b);
    if x.len() != y.len() {
        return false;
    }
    let mut i: usize = 0;
    while i < x.len()
        invariant
            i <= x@.len() == y@.len(),
            x@ == a@,
            y@ == b@,
            forall|j: int| 0 <= j < i ==> x@[j] == y@[j],
        decreases x.len() - i,
    {
        if x[i] != y[i] {
            return false;
        }
        i += 1;
    }
    assert(a@ =~= b@);
    true
}

/// Tells whether two strings are equal up to the case of ASCII letters.
pub fn eq_ignore_case(a: &str, b: &str) -> (r: bool)
    ensures
        r == same_ignoring_case(a@, b@),
{
    let x = chars_of(a);
    let y = chars_of(b);
    if x.len() != y.len() {
        return false;
    }
    let mut i: usize = 0;
    while i < x.len()
        invariant
            i <= x@.len() == y@.len(),
            x@ == a@,
            y@ == b@,
            forall|j: int| 0 <= j < i ==> ascii_lower(#[trigger] x@[j]) == ascii_lower(y@[j]),
        decreases x.len() - i,
    {
        if to_ascii_lower(x[i]) != to_ascii_lower(y[i]) {
            return false;
        }
        i += 1;
    }
    true
}

/// Tells whether `s` begins with `prefix`.
pub fn starts_with(s: &str, prefix: &str) -> (r: bool)
    ensures
        r == prefix@.is_prefix_of(s@),
{
    let x = chars_of(s);
    let y = chars_of(prefix);
    if x.len() < y.len() {
        return false;
    }
    let mut i: usize = 0;
    while i < y.len()
        invariant
            i <= y@.len() <= x@.len(),
            x@ == s@,
            y@ == prefix@,
            forall|j: int| 0 <= j < i ==> x@[j] == y@[j],
        decreases y.len() - i,
    {
        if x[i] != y[i] {
            assert(x@.take(y@.len() as int)[i as int] == x@[i as int]);
            return false;
        }
        i += 1;
    }
    assert(y@ =~= x@.take(y@.len() as int));
    true
}

/// Tells whether `s` ends with `suffix`.
pub fn ends_with(s: &str, suffix: &str) -> (r: bool)
    ensures
        r == suffix@.is_suffix_of(s@),
{
    let x = chars_of(s);
    let y = chars_of(suffix);
    if x.len() < y.len() {
        return false;
    }
    let offset: usize = x.len() - y.len();
    let mut i: usize = 0;
    while i < y.len()
        invariant
            i <= y.len() <= x.len(),
            offset == x.len() - y.len(),
            x@ == s@,
            y@ == suffix@,
            forall|j: int| 0 <= j < i ==> x@[offset + j] == y@[j],
        decreases y.len() - i,
    {
        if x[offset + i] != y[i] {
            assert(x@.subrange(offset as int, x@.len() as int)[i as int] == x@[offset + i]);
            return false;
        }
        i += 1;
    }
    assert(y@ =~= x@.subrange(offset as int, x@.len() as int));
    true
}

/// What follows `prefix` at the start of `s`.
pub open spec fn after_prefix(s: Seq<char>, prefix: Seq<char>) -> Option<Seq<char>> {
    if prefix.is_prefix_of(s) {
        Some(s.skip(prefix.len() as int))
    } else {
        None
    }
}

/// The rest of `s` behind `prefix`, if it begins with it.
pub fn strip_prefix<'a>(s: &'a str, prefix: &str) -> (r: Option<&'a str>)
    ensures
        opt_str(r) == after_prefix(s@, prefix@),
{
    if starts_with(s, prefix) {
        let n = s.unicode_len();
        let k = prefix.unicode_len();
        let rest = s.substring_char(k, n);
        assert(rest@ =~= s@.skip(k as int));
        Some(rest)
    } else {
        None
    }
}

/// What follows `prefix` at the start of `s`, where the case of ASCII letters
/// does not matter.
pub open spec fn after_prefix_ci(s: Seq<char>, prefix: Seq<char>) -> Option<Seq<char>> {
    if prefix.len() <= s.len() && same_ignoring_case(s.take(prefix.len() as int), prefix) {
        Some(s.skip(prefix.len() as int))
    } else {
        None
    }
}

/// What comes before `suffix` at the end of `s`, where the case of ASCII
/// letters does not matter.
pub open spec fn before_suffix_ci(s: Seq<char>, suffix: Seq<char>) -> Option<Seq<char>> {
    if suffix.len() <= s.len() && same_ignoring_case(s.skip(s.len() - suffix.len()), suffix) {
        Some(s.take(s.len() - suffix.len()))
    } else {
        None
    }
}

/// The rest of `input` behind `prefix`, if it begins with it up to the case of
/// ASCII letters.
pub fn strip_ascii_prefix<'a>(input: &'a str, prefix: &str) -> (r: Option<&'a str>)
    ensures
        opt_str(r) == after_prefix_ci(input@, prefix@),
{
    let n = input.unicode_len();
    let k = prefix.unicode_len();
    if n < k {
        return None;
    }
    let head = input.substring_char(0, k);
    assert(head@ =~= input@.take(k as int));
    if eq_ignore_case(head, prefix) {
        let rest = input.substring_char(k, n);
        assert(rest@ =~= input@.skip(k as int));
        Some(rest)
    } else {
        None
    }
}

/// What comes before `suffix` in `input`, if it ends with it up to the case of
/// ASCII letters.
pub fn strip_ascii_suffix<'a>(input: &'a str, suffix: &str) -> (r: Option<&'a str>)
    ensures
        opt_str(r) == before_suffix_ci(input@, suffix@),
{
    let n = input.unicode_len();
    let k = suffix.unicode_len();
    if n < k {
        return None;
    }
    let tail = input.substring_char(n - k, n);
    assert(tail@ =~= input@.skip(n - k));
    if eq_ignore_case(tail, suffix) {
        let rest = input.substring_char(0, n - k);
        assert(rest@ =~= input@.take(n - k));
        Some(rest)
    } else {
        None
    }
}

/// A text without its leading white space.
pub open spec fn trimmed_start(s: Seq<char>) -> Seq<char>
    decreases s.len(),
{
    if s.len() > 0 && whitespace(s[0]) {
        trimmed_start(s.drop_first())
    } else {
        s
    }
}

/// A text without its trailing white space.
pub open spec fn trimmed_end(s: Seq<char>) -> Seq<char>
    decreases s.len(),
{
    if s.len() > 0 && whitespace(s.last()) {
        trimmed_end(s.drop_last())
    } else {
        s
    }
}

/// A text without the white space around it.
pub open spec fn trimmed(s: Seq<char>) -> Seq<char> {
    trimmed_end(trimmed_start(s))
}

/// Drops the leading white space.
pub fn trim_start(s: &str) -> (r: &str)
    ensures
        r@ == trimmed_start(s@),
{
    let x = chars_of(s);
    let mut i: usize = 0;
    assert(s@.skip(0) =~= s@);
    while i < x.len() && is_whitespace(x[i])
        invariant
            i <= x@.len(),
            x@ == s@,
            trimmed_start(s@) == trimmed_start(s@.skip(i as int)),
        decreases x.len() - i,
    {
        assert(s@.skip(i as int).drop_first() =~= s@.skip(i + 1));
        i += 1;
    }
    let r = s.substring_char(i, x.len());
    assert(r@ =~= s@.skip(i as int));
    r
}

/// Drops the trailing white space.
pub fn trim_end(s: &str) -> (r: &str)
    ensures
        r@ == trimmed_end(s@),
{
    let x = chars_of(s);
    let mut i: usize = x.len();
    assert(s@.take(i as int) =~= s@);
    while i > 0 && is_whitespace(x[i - 1])
        invariant
            i <= x@.len(),
            x@ == s@,
            trimmed_end(s@) == trimmed_end(s@.take(i as int)),
        decreases i,
    {
        assert(s@.take(i as int).drop_last() =~= s@.take(i - 1));
        i -= 1;
    }
    let r = s.substring_char(0, i);
    assert(r@ =~= s@.take(i as int));
    r
}

/// Drops the white space at both ends.
pub fn trim(s: &str) -> (r: &str)
    ensures
        r@ == trimmed(s@),
{
    trim_end(trim_start(s))
}

/// The position of the first `c` in `s`, or the length of `s`.
pub open spec fn first_index(s: Seq<char>, c: char) -> int
    decreases s.len(),
{
    if s.len() == 0 || s[0] == c {
        0
    } else {
        1 + first_index(s.drop_first(), c)
    }
}

pub proof fn lemma_first_index(s: Seq<char>, c: char, n: int)
    requires
        0 <= n <= s.len(),
        forall|j: int| 0 <= j < n ==> s[j] != c,
        n < s.len() ==> s[n] == c,
    ensures
        first_index(s, c) == n,
    decreases s.len(),
{
    if n > 0 {
        assert forall|j: int| 0 <= j < n - 1 implies s.drop_first()[j] != c by {
            assert(s.drop_first()[j] == s[j + 1]);
        }
        lemma_first_index(s.drop_first(), c, n - 1);
    }
}

pub proof fn lemma_first_index_props(s: Seq<char>, c: char)
    ensures
        0 <= first_index(s, c) <= s.len(),
        forall|j: int| 0 <= j < first_index(s, c) ==> s[j] != c,
        first_index(s, c) < s.len() ==> s[first_index(s, c)] == c,
        first_index(s, c) < s.len() <==> s.contains(c),
    decreases s.len(),
{
    if s.len() > 0 && s[0] != c {
        lemma_first_index_props(s.drop_first(), c);
        assert forall|j: int| 0 <= j < first_index(s, c) implies s[j] != c by {
            if j > 0 {
                assert(s[j] == s.drop_first()[j - 1]);
            }
        }
    }
    if s.contains(c) {
        let k = choose|k: int| 0 <= k < s.len() && s[k] == c;
        if first_index(s, c) >= s.len() {
            assert(s[k] != c);
        }
    } else if first_index(s, c) < s.len() {
        assert(s.contains(s[first_index(s, c)]));
    }
}

/// The pieces of `s` between the occurrences of `c`.
pub open spec fn split_on(s: Seq<char>, c: char) -> Seq<Seq<char>>
    decreases s.len(),
    via split_on_decreases
{
    let n = first_index(s, c);
    if n >= s.len() {
        seq![s]
    } else {
        seq![s.take(n)] + split_on(s.skip(n + 1), c)
    }
}

#[via_fn]
proof fn split_on_decreases(s: Seq<char>, c: char) {
    lemma_first_index_props(s, c);
}

/// Splits `s` at each `c`.
pub fn split(s: &str, c: char) -> (r: Vec<String>)
    ensures
        texts(r@) == split_on(s@, c),
        r@.len() >= 1,
{
    let x = chars_of(s);
    let mut r: Vec<String> = Vec::new();
    let mut start: usize = 0;
    let mut i: usize = 0;
    assert(s@.skip(0) =~= s@);
    assert(texts(r@) + split_on(s@, c) =~= split_on(s@, c));
    while i < x.len()
        invariant
            start <= i <= x@.len(),
            x@ == s@,
            forall|j: int| start <= j < i ==> x@[j] != c,
            texts(r@) + split_on(s@.skip(start as int), c) == split_on(s@, c),
        decreases x.len() - i,
    {
        if x[i] == c {
            proof {
                let rest = s@.skip(start as int);
                lemma_first_index(rest, c, i - start);
                assert(rest.take(i - start) =~= s@.subrange(start as int, i as int));
                assert(rest.skip(i - start + 1) =~= s@.skip(i + 1));
            }
            let ghost before = r@;
            let piece = string_of(&x, start, i);
            r.push(piece);
            proof {
                lemma_texts_push(before, piece);
                assert(texts(r@) + split_on(s@.skip(i + 1), c) =~= texts(before) + (
                seq![piece@] + split_on(s@.skip(i + 1), c)));
            }
            start = i + 1;
        }
        i += 1;
    }
    let ghost before = r@;
    let piece = string_of(&x, start, x.len());
    r.push(piece);
    proof {
        let rest = s@.skip(start as int);
        lemma_first_index(rest, c, rest.len() as int);
        lemma_texts_push(before, piece);
        assert(rest =~= piece@);
        assert(texts(r@) =~= texts(before) + seq![piece@]);
    }
    r
}

/// A text without one trailing carriage return.
pub open spec fn without_cr(s: Seq<char>) -> Seq<char> {
    if s.len() > 0 && s.last() == '\r' {
        s.drop_last()
    } else {
        s
    }
}

/// The lines of a text. A line ends at a line feed, or at a carriage return
/// with a line feed behind it; the last line may lack its ending.
pub open spec fn lines_of(s: Seq<char>) -> Seq<Seq<char>> {
    let pieces = split_on(s, '\n');
    let ended = pieces.drop_last().map_values(|p: Seq<char>| without_cr(p));
    if pieces.last().len() == 0 {
        ended
    } else {
        ended.push(pieces.last())
    }
}

/// Splits a text into its lines.
pub fn lines(s: &str) -> (r: Vec<String>)
    ensures
        texts(r@) == lines_of(s@),
{
    let pieces = split(s, '\n');
    let n = pieces.len();
    let mut r: Vec<String> = Vec::new();
    let mut i: usize = 0;
    let ghost all = split_on(s@, '\n');
    let ghost ended = all.drop_last().map_values(|p: Seq<char>| without_cr(p));
    while i < n - 1
        invariant
            n == pieces@.len(),
            n >= 1,
            i <= n - 1,
            all == texts(pieces@),
            ended == all.drop_last().map_values(|p: Seq<char>| without_cr(p)),
            texts(r@) == ended.take(i as int),
        decreases n - 1 - i,
    {
        let p = pieces[i].as_str();
        let x = chars_of(p);
        let m = x.len();
        let line = if m > 0 && x[m - 1] == '\r' {
            string_of(&x, 0, m - 1)
        } else {
            string_of(&x, 0, m)
        };
        assert(line@ =~= without_cr(all[i as int]));
        let ghost before = r@;
        r.push(line);
        proof {
            lemma_texts_push(before, line);
            assert(texts(r@) =~= ended.take(i + 1));
        }
        i += 1;
    }
    assert(ended.take(n - 1) =~= ended);
    let last = pieces[n - 1].clone();
    if !last.as_str().is_empty() {
        let ghost before = r@;
        r.push(last);
        proof {
            lemma_texts_push(before, last);
        }
    }
    r
}

/// The texts of `parts` one after the other, with `sep` between neighbours.
pub open spec fn joined(parts: Seq<Seq<char>>, sep: Seq<char>) -> Seq<char>
    decreases parts.len(),
{
    if parts.len() == 0 {
        seq![]
    } else if parts.len() == 1 {
        parts[0]
    } else {
        joined(parts.drop_last(), sep) + sep + parts.last()
    }
}

/// Three texts, one after the other.
pub fn concat3(a: &str, b: &str, c: &str) -> (r: String)
    ensures
        r@ == a@ + b@ + c@,
{
    let mut r = a.to_string();
    r.append(b);
    r.append(c);
    r
}

/// Joins strings with a separator.
pub fn join(parts: &Vec<String>, sep: &str) -> (r: String)
    ensures
        r@ == joined(texts(parts@), sep@),
{
    let mut r = String::new();
    let mut i: usize = 0;
    let ghost all = texts(parts@);
    while i < parts.len()
        invariant
            i <= parts@.len(),
            all == texts(parts@),
            r@ == joined(all.take(i as int), sep@),
        decreases parts.len() - i,
    {
        if i > 0 {
            r.append(sep);
        }
        r.append(parts[i].as_str());
        proof {
            let next = all.take(i + 1);
            assert(next.drop_last() =~= all.take(i as int));
            assert(next.last() == all[i as int]);
            if i == 0 {
                assert(r@ =~= next[0]);
            } else {
                assert(r@ =~= joined(next.drop_last(), sep@) + sep@ + next.last());
            }
        }
        i += 1;
    }
    assert(all.take(parts@.len() as int) =~= all);
    r
}

/// Tells whether `s` holds the character `c`.
pub fn contains_char(s: &str, c: char) -> (r: bool)
    ensures
        r == s@.contains(c),
{
    let x = chars_of(s);
    let mut i: usize = 0;
    while i < x.len()
        invariant
            i <= x@.len(),
            x@ == s@,
            forall|j: int| 0 <= j < i ==> x@[j] != c,
        decreases x.len() - i,
    {
        if x[i] == c {
            return true;
        }
        i += 1;
    }
    false
}

/// Tells whether `s` holds any white space.
pub fn has_whitespace(s: &str) -> (r: bool)
    ensures
        r == !no_whitespace(s@),
{
    let x = chars_of(s);
    let mut i: usize = 0;
    while i < x.len()
        invariant
            i <= x@.len(),
            x@ == s@,
            forall|j: int| 0 <= j < i ==> !whitespace(#[trigger] x@[j]),
        decreases x.len() - i,
    {
        if is_whitespace(x[i]) {
            return true;
        }
        i += 1;
    }
    false
}

/// Tells whether `s` begins with the character `c`.
pub fn starts_with_char(s: &str, c: char) -> (r: bool)
    ensures
        r == (s@.len() > 0 && s@[0] == c),
{
    if s.is_empty() {
        false
    } else {
        assert(s@.len() > 0);
        s.get_char(0) == c
    }
}

/// A path with slashes in the place of backslashes.
pub open spec fn with_slashes(s: Seq<char>) -> Seq<char> {
    s.map_values(|c: char| if c == '\\' { '/' } else { c })
}

/// Puts slashes in the place of backslashes.
pub fn replace_backslashes(s: &str) -> (r: String)
    ensures
        r@ == with_slashes(s@),
{
    let x = chars_of(s);
    let mut r = String::new();
    let mut i: usize = 0;
    while i < x.len()
        invariant
            i <= x@.len(),
            r@ == with_slashes(x@.take(i as int)),
        decreases x.len() - i,
    {
        let c = x[i];
        r.push(if c == '\\' { '/' } else { c });
        i += 1;
        assert(r@ =~= with_slashes(x@.take(i as int)));
    }
    assert(x@.take(x@.len() as int) =~= x@);
    r
}

/// Tells whether a list of strings holds `item`.
pub fn contains_text(list: &Vec<String>, item: &str) -> (r: bool)
    ensures
        r == texts(list@).contains(item@),
{
    let mut i: usize = 0;
    while i < list.len()
        invariant
            i <= list@.len(),
            forall|j: int| 0 <= j < i ==> list@[j]@ != item@,
        decreases list.len() - i,
    {
        if str_eq(list[i].as_str(), item) {
            assert(texts(list@)[i as int] == item@);
            return true;
        }
        i += 1;
    }
    assert forall|j: int| 0 <= j < texts(list@).len() implies texts(list@)[j] != item@ by {
        assert(texts(list@)[j] == list@[j]@);
    }
    false
}

pub proof fn lemma_split_nonempty(s: Seq<char>, c: char)
    ensures
        split_on(s, c).len() > 0,
{
    lemma_first_index_props(s, c);
}

/// Splitting two texts with the character between them gives the pieces of
/// both.
pub proof fn lemma_split_join(a: Seq<char>, b: Seq<char>, c: char)
    ensures
        split_on(a.push(c) + b, c) == split_on(a, c) + split_on(b, c),
    decreases a.len(),
{
    let whole = a.push(c) + b;
    let n = first_index(a, c);
    lemma_first_index_props(a, c);
    lemma_first_index(whole, c, n);
    assert(whole.take(n) =~= a.take(n));
    if n < a.len() {
        let rest = a.skip(n + 1);
        assert(whole.skip(n + 1) =~= rest.push(c) + b);
        lemma_split_join(rest, b, c);
        assert(split_on(whole, c) =~= split_on(a, c) + split_on(b, c));
    } else {
        assert(whole.skip(n + 1) =~= b);
        assert(a.take(n) =~= a);
        assert(split_on(whole, c) =~= split_on(a, c) + split_on(b, c));
    }
}

/// A text that holds no line feed, with one behind it, is one line behind the
/// lines before it.
pub proof fn lemma_lines_append(before: Seq<char>, line: Seq<char>)
    requires
        before.len() == 0 || before.last() == '\n',
        !line.contains('\n'),
    ensures
        lines_of(before + line.push('\n')) == lines_of(before).push(without_cr(line)),
{
    let none = Seq::<char>::empty();
    let f = |p: Seq<char>| without_cr(p);
    lemma_first_index_props(line, '\n');
    assert(split_on(line, '\n') =~= seq![line]);
    assert(split_on(none, '\n') =~= seq![none]);
    assert(line.push('\n') + none =~= line.push('\n'));
    lemma_split_join(line, none, '\n');
    assert(split_on(line.push('\n'), '\n') =~= seq![line, none]);
    if before.len() == 0 {
        assert(before + line.push('\n') =~= line.push('\n'));
        assert(split_on(before, '\n') =~= seq![before]);
        assert(lines_of(before) =~= seq![]);
        assert(seq![line, none].drop_last() =~= seq![line]);
        assert(lines_of(line.push('\n')) =~= seq![without_cr(line)]);
    } else {
        let a = before.drop_last();
        assert(before =~= a.push('\n') + none);
        lemma_split_join(a, none, '\n');
        assert(before + line.push('\n') =~= a.push('\n') + line.push('\n'));
        lemma_split_join(a, line.push('\n'), '\n');
        let pieces = split_on(a, '\n');
        lemma_split_nonempty(a, '\n');
        assert((pieces + seq![none]).drop_last() =~= pieces);
        assert((pieces + seq![line, none]).drop_last() =~= pieces.push(line));
        assert(lines_of(before) =~= pieces.map_values(f));
        assert(pieces.push(line).map_values(f) =~= pieces.map_values(f).push(without_cr(line)));
        assert(lines_of(before + line.push('\n')) =~= lines_of(before).push(without_cr(line)));
    }
}

} // verus!
