//! Words of a command line: quoting, escaping and splitting.
use vstd::prelude::*;
use vstd::string::*;

use crate::text::{chars_of, is_whitespace, joined, lemma_texts_push, texts, whitespace};

verus! {

/// Where the reader of a command line stands.
pub enum ShellMode {
    /// Outside quotes.
    Plain,
    /// Behind a backslash outside quotes.
    Escaped,
    /// Inside quotes; the field is the character that opened them.
    Quoted(char),
    /// Behind a backslash inside double quotes.
    QuotedEscaped,
}

/// What one character adds to the words read so far.
pub enum ShellEffect {
    Nothing,
    Append,
    Break,
}

/// The mode behind the character `c`, read in the mode `mode`.
pub open spec fn mode_after(mode: ShellMode, c: char) -> ShellMode {
    match mode {
        ShellMode::Plain => if c == '"' || c == '\'' {
            ShellMode::Quoted(c)
        } else if c == '\\' {
            ShellMode::Escaped
        } else {
            ShellMode::Plain
        },
        ShellMode::Escaped => ShellMode::Plain,
        ShellMode::Quoted(q) => if c == q {
            ShellMode::Plain
        } else if c == '\\' && q == '"' {
            ShellMode::QuotedEscaped
        } else {
            ShellMode::Quoted(q)
        },
        ShellMode::QuotedEscaped => ShellMode::Quoted('"'),
    }
}

/// What the character `c` adds when it is read in the mode `mode`. White space
/// outside quotes separates words; quotes and active backslashes vanish.
pub open spec fn effect_of(mode: ShellMode, c: char) -> ShellEffect {
    match mode {
        ShellMode::Plain => if whitespace(c) {
            ShellEffect::Break
        } else if c == '"' || c == '\'' || c == '\\' {
            ShellEffect::Nothing
        } else {
            ShellEffect::Append
        },
        ShellMode::Escaped => ShellEffect::Append,
        ShellMode::Quoted(q) => if c == q || (c == '\\' && q == '"') {
            ShellEffect::Nothing
        } else {
            ShellEffect::Append
        },
        ShellMode::QuotedEscaped => ShellEffect::Append,
    }
}

/// The mode at the end of the text `s`.
pub open spec fn shell_mode(s: Seq<char>) -> ShellMode
    decreases s.len(),
{
    if s.len() == 0 {
        ShellMode::Plain
    } else {
        mode_after(shell_mode(s.drop_last()), s.last())
    }
}

/// The texts between the separators of `s`, with quotes and escapes resolved.
/// There is always at least one; pieces may be empty.
pub open spec fn shell_pieces(s: Seq<char>) -> Seq<Seq<char>>
    decreases s.len(),
{
    if s.len() == 0 {
        seq![Seq::<char>::empty()]
    } else {
        let pieces = shell_pieces(s.drop_last());
        match effect_of(shell_mode(s.drop_last()), s.last()) {
            ShellEffect::Nothing => pieces,
            ShellEffect::Append => pieces.drop_last().push(pieces.last().push(s.last())),
            ShellEffect::Break => pieces.push(Seq::empty()),
        }
    }
}

/// The texts of `pieces` that are not empty, in order.
pub open spec fn nonempty(pieces: Seq<Seq<char>>) -> Seq<Seq<char>>
    decreases pieces.len(),
{
    if pieces.len() == 0 {
        seq![]
    } else if pieces.last().len() == 0 {
        nonempty(pieces.drop_last())
    } else {
        nonempty(pieces.drop_last()).push(pieces.last())
    }
}

/// Why a command line has no words.
#[derive(Clone, Copy, Debug, PartialEq, Eq, Structural)]
pub enum ShellWordsError {
    Unterminated,
    Empty,
}

impl ShellWordsError {
    /// The text that tells the user what is wrong.
    pub open spec fn text(self) -> Seq<char> {
        match self {
            ShellWordsError::Unterminated => "EDITOR contains unterminated quotes"@,
            ShellWordsError::Empty => "EDITOR is empty"@,
        }
    }

    /// The message of the error.
    pub fn message(&self) -> (r: String)
        ensures
            r@ == self.text(),
    {
        match self {
            ShellWordsError::Unterminated => "EDITOR contains unterminated quotes".to_string(),
            ShellWordsError::Empty => "EDITOR is empty".to_string(),
        }
    }
}

/// Whether quotes are still open at the end of `s`.
pub open spec fn unterminated(s: Seq<char>) -> bool {
    shell_mode(s) is Quoted || shell_mode(s) is QuotedEscaped
}

/// The words of a command line: its pieces that are not empty. Open quotes at
/// the end are an error, and so is a line without a word.
pub open spec fn words_of(s: Seq<char>) -> Result<Seq<Seq<char>>, ShellWordsError> {
    if unterminated(s) {
        Err(ShellWordsError::Unterminated)
    } else if nonempty(shell_pieces(s)).len() == 0 {
        Err(ShellWordsError::Empty)
    } else {
        Ok(nonempty(shell_pieces(s)))
    }
}

/// The view of a result that holds a list of strings.
pub open spec fn words_view(r: Result<Vec<String>, ShellWordsError>) -> Result<
    Seq<Seq<char>>,
    ShellWordsError,
> {
    match r {
        Ok(v) => Ok(texts(v@)),
        Err(e) => Err(e),
    }
}

/// The mode behind the character `c`.
pub fn next_mode(mode: ShellMode, c: char) -> (r: ShellMode)
    ensures
        r == mode_after(mode, c),
{
    match mode {
        ShellMode::Plain => if c == '"' || c == '\'' {
            ShellMode::Quoted(c)
        } else if c == '\\' {
            ShellMode::Escaped
        } else {
            ShellMode::Plain
        },
        ShellMode::Escaped => ShellMode::Plain,
        ShellMode::Quoted(q) => if c == q {
            ShellMode::Plain
        } else if c == '\\' && q == '"' {
            ShellMode::QuotedEscaped
        } else {
            ShellMode::Quoted(q)
        },
        ShellMode::QuotedEscaped => ShellMode::Quoted('"'),
    }
}

/// What the character `c` adds to the words.
pub fn char_effect(mode: &ShellMode, c: char) -> (r: ShellEffect)
    ensures
        r == effect_of(*mode, c),
{
    match mode {
        ShellMode::Plain => if is_whitespace(c) {
            ShellEffect::Break
        } else if c == '"' || c == '\'' || c == '\\' {
            ShellEffect::Nothing
        } else {
            ShellEffect::Append
        },
        ShellMode::Escaped => ShellEffect::Append,
        ShellMode::Quoted(q) => if c == *q || (c == '\\' && *q == '"') {
            ShellEffect::Nothing
        } else {
            ShellEffect::Append
        },
        ShellMode::QuotedEscaped => ShellEffect::Append,
    }
}

/// Splits a command line into its words.
pub fn shell_words(input: &str) -> (r: Result<Vec<String>, ShellWordsError>)
    ensures
        words_view(r) == words_of(input@),
{
    let chars = chars_of(input);
    let mut words: Vec<String> = Vec::new();
    let mut current = String::new();
    let mut mode = ShellMode::Plain;
    let mut i: usize = 0;
    assert(input@.take(0) =~= Seq::<char>::empty());
    assert(shell_pieces(input@.take(0)).drop_last() =~= Seq::<Seq<char>>::empty());
    while i < chars.len()
        invariant
            i <= chars@.len(),
            chars@ == input@,
            mode == shell_mode(input@.take(i as int)),
            shell_pieces(input@.take(i as int)).len() > 0,
            current@ == shell_pieces(input@.take(i as int)).last(),
            texts(words@) == nonempty(shell_pieces(input@.take(i as int)).drop_last()),
        decreases chars.len() - i,
    {
        let c = chars[i];
        let ghost before = shell_pieces(input@.take(i as int));
        let ghost after = shell_pieces(input@.take(i + 1));
        assert(input@.take(i + 1).drop_last() =~= input@.take(i as int));
        assert(input@.take(i + 1).last() == c);
        match char_effect(&mode, c) {
            ShellEffect::Nothing => {},
            ShellEffect::Append => {
                current.push(c);
                assert(after.drop_last() =~= before.drop_last());
            },
            ShellEffect::Break => {
                assert(after.drop_last() =~= before);
                if !current.as_str().is_empty() {
                    let ghost old_words = words@;
                    words.push(current);
                    proof {
                        lemma_texts_push(old_words, current);
                    }
                    current = String::new();
                }
            },
        }
        mode = next_mode(mode, c);
        i += 1;
    }
    assert(input@.take(chars@.len() as int) =~= input@);
    match mode {
        ShellMode::Quoted(_) | ShellMode::QuotedEscaped => {
            return Err(ShellWordsError::Unterminated);
        },
        ShellMode::Plain | ShellMode::Escaped => {},
    }
    if !current.as_str().is_empty() {
        let ghost old_words = words@;
        words.push(current);
        proof {
            lemma_texts_push(old_words, current);
        }
    }
    if words.len() == 0 {
        return Err(ShellWordsError::Empty);
    }
    Ok(words)
}

/// Whether the character at `i` separates two words: white space that is
/// neither quoted nor escaped.
pub open spec fn separates(s: Seq<char>, i: int) -> bool {
    shell_mode(s.take(i)) is Plain && whitespace(s[i])
}

/// Where the last word of `s` begins: behind its last separator.
pub open spec fn last_word_start(s: Seq<char>) -> int
    decreases s.len(),
{
    if s.len() == 0 {
        0
    } else if separates(s, s.len() - 1) {
        s.len() as int
    } else {
        last_word_start(s.drop_last())
    }
}

pub proof fn lemma_last_word_start(s: Seq<char>)
    ensures
        0 <= last_word_start(s) <= s.len(),
    decreases s.len(),
{
    if s.len() > 0 {
        lemma_last_word_start(s.drop_last());
    }
}

/// The position at which the last word of a command line begins, counted in
/// characters.
pub fn last_shell_word_start(chars: &Vec<char>) -> (r: usize)
    ensures
        r == last_word_start(chars@),
        r <= chars@.len(),
{
    let mut start: usize = 0;
    let mut mode = ShellMode::Plain;
    let mut i: usize = 0;
    while i < chars.len()
        invariant
            start <= i <= chars@.len(),
            mode == shell_mode(chars@.take(i as int)),
            start == last_word_start(chars@.take(i as int)),
        decreases chars.len() - i,
    {
        let c = chars[i];
        let ghost upto = chars@.take(i + 1);
        assert(upto.drop_last() =~= chars@.take(i as int));
        assert(upto.take(i as int) =~= chars@.take(i as int));
        let plain = match mode {
            ShellMode::Plain => true,
            _ => false,
        };
        if plain && is_whitespace(c) {
            start = i + 1;
        }
        mode = next_mode(mode, c);
        i += 1;
    }
    assert(chars@.take(chars@.len() as int) =~= chars@);
    start
}

/// The characters that a double-quoted argument escapes.
pub open spec fn escaped_in_quotes(c: char) -> bool {
    c == '"' || c == '\\' || c == '$' || c == '`'
}

/// The characters because of which an argument needs quotes.
pub open spec fn needs_quotes(c: char) -> bool {
    whitespace(c) || c == '\'' || escaped_in_quotes(c)
}

/// The text with a backslash before each character that needs one.
pub open spec fn escaped(s: Seq<char>) -> Seq<char>
    decreases s.len(),
{
    if s.len() == 0 {
        seq![]
    } else if escaped_in_quotes(s.last()) {
        escaped(s.drop_last()).push('\\').push(s.last())
    } else {
        escaped(s.drop_last()).push(s.last())
    }
}

/// Whether an argument can stand on a command line as it is.
pub open spec fn plain_argument(s: Seq<char>) -> bool {
    s.len() > 0 && forall|i: int| 0 <= i < s.len() ==> !needs_quotes(#[trigger] s[i])
}

/// An argument as it is written on a command line.
pub open spec fn quoted(s: Seq<char>) -> Seq<char> {
    if plain_argument(s) {
        s
    } else {
        seq!['"'] + escaped(s) + seq!['"']
    }
}

/// Writes an argument so that a command line holds it as one word.
pub fn quote_shell_argument(argument: &str) -> (r: String)
    ensures
        r@ == quoted(argument@),
{
    let chars = chars_of(argument);
    let mut plain = chars.len() > 0;
    let mut i: usize = 0;
    while i < chars.len()
        invariant
            i <= chars@.len(),
            plain ==> chars@.len() > 0,
            plain ==> forall|j: int| 0 <= j < i ==> !needs_quotes(#[trigger] chars@[j]),
            !plain ==> !plain_argument(chars@),
        decreases chars.len() - i,
    {
        let c = chars[i];
        if is_whitespace(c) || c == '\'' || c == '"' || c == '\\' || c == '$' || c == '`' {
            assert(needs_quotes(chars@[i as int]));
            plain = false;
        }
        i += 1;
    }
    if plain {
        return argument.to_string();
    }
    let mut r = String::new();
    r.push('"');
    let mut i: usize = 0;
    while i < chars.len()
        invariant
            i <= chars@.len(),
            r@ == seq!['"'] + escaped(chars@.take(i as int)),
        decreases chars.len() - i,
    {
        let c = chars[i];
        assert(chars@.take(i + 1).drop_last() =~= chars@.take(i as int));
        if c == '"' || c == '\\' || c == '$' || c == '`' {
            r.push('\\');
        }
        r.push(c);
        assert(r@ =~= seq!['"'] + escaped(chars@.take(i + 1)));
        i += 1;
    }
    assert(chars@.take(chars@.len() as int) =~= chars@);
    r.push('"');
    assert(r@ =~= quoted(argument@));
    r
}

/// The text between matching quotes, or the text itself.
pub open spec fn unquoted(s: Seq<char>) -> Seq<char> {
    if s.len() >= 2 && (s[0] == '"' || s[0] == '\'') && s.last() == s[0] {
        s.subrange(1, s.len() - 1)
    } else {
        s
    }
}

/// Drops one pair of matching quotes around `input`.
pub fn strip_matching_quotes(input: &str) -> (r: &str)
    ensures
        r@ == unquoted(input@),
{
    let n = input.unicode_len();
    if n >= 2 {
        let first = input.get_char(0);
        let last = input.get_char(n - 1);
        if (first == '"' || first == '\'') && last == first {
            return input.substring_char(1, n - 1);
        }
    }
    input
}

/// Reading `escaped(s)` inside double quotes appends exactly `s` to the last
/// piece.
proof fn lemma_escaped(before: Seq<char>, s: Seq<char>)
    requires
        shell_mode(before) == ShellMode::Quoted('"'),
        shell_pieces(before).len() > 0,
    ensures
        shell_mode(before + escaped(s)) == ShellMode::Quoted('"'),
        shell_pieces(before + escaped(s)) == shell_pieces(before).drop_last().push(
            shell_pieces(before).last() + s,
        ),
    decreases s.len(),
{
    if s.len() == 0 {
        assert(before + escaped(s) =~= before);
        assert(shell_pieces(before).last() + s =~= shell_pieces(before).last());
        assert(shell_pieces(before) =~= shell_pieces(before).drop_last().push(
            shell_pieces(before).last() + s,
        ));
    } else {
        let init = s.drop_last();
        let c = s.last();
        lemma_escaped(before, init);
        let t = before + escaped(init);
        let p = shell_pieces(before);
        assert(p.last() + s =~= (p.last() + init).push(c));
        if escaped_in_quotes(c) {
            let t1 = t.push('\\');
            let t2 = t1.push(c);
            assert(t1.drop_last() =~= t);
            assert(t2.drop_last() =~= t1);
            assert(before + escaped(s) =~= t2);
            assert(shell_mode(t1) == ShellMode::QuotedEscaped);
            assert(shell_pieces(t1) == shell_pieces(t));
        } else {
            let t1 = t.push(c);
            assert(t1.drop_last() =~= t);
            assert(before + escaped(s) =~= t1);
        }
        assert(shell_pieces(before + escaped(s)) =~= p.drop_last().push(p.last() + s));
    }
}

/// Reading a text without special characters appends it to the last piece.
proof fn lemma_plain(before: Seq<char>, s: Seq<char>)
    requires
        shell_mode(before) == ShellMode::Plain,
        shell_pieces(before).len() > 0,
        forall|i: int| 0 <= i < s.len() ==> !needs_quotes(#[trigger] s[i]),
    ensures
        shell_mode(before + s) == ShellMode::Plain,
        shell_pieces(before + s) == shell_pieces(before).drop_last().push(
            shell_pieces(before).last() + s,
        ),
    decreases s.len(),
{
    let p = shell_pieces(before);
    if s.len() == 0 {
        assert(before + s =~= before);
        assert(p.last() + s =~= p.last());
        assert(p =~= p.drop_last().push(p.last() + s));
    } else {
        let init = s.drop_last();
        lemma_plain(before, init);
        let t = before + s;
        assert(t.drop_last() =~= before + init);
        assert(t.last() == s[s.len() - 1]);
        assert(p.last() + s =~= (p.last() + init).push(s.last()));
        assert(shell_pieces(t) =~= p.drop_last().push(p.last() + s));
    }
}

/// Reading a quoted argument outside quotes appends exactly the argument.
proof fn lemma_quoted(before: Seq<char>, s: Seq<char>)
    requires
        shell_mode(before) == ShellMode::Plain,
        shell_pieces(before).len() > 0,
    ensures
        shell_mode(before + quoted(s)) == ShellMode::Plain,
        shell_pieces(before + quoted(s)) == shell_pieces(before).drop_last().push(
            shell_pieces(before).last() + s,
        ),
{
    if plain_argument(s) {
        lemma_plain(before, s);
    } else {
        let open = before.push('"');
        assert(open.drop_last() =~= before);
        assert(shell_pieces(open) == shell_pieces(before));
        lemma_escaped(open, s);
        let body = open + escaped(s);
        let all = body.push('"');
        assert(all.drop_last() =~= body);
        assert(before + quoted(s) =~= all);
    }
}

/// A list of quoted arguments.
pub open spec fn all_quoted(args: Seq<Seq<char>>) -> Seq<Seq<char>> {
    args.map_values(|a: Seq<char>| quoted(a))
}

proof fn lemma_joined_quoted(args: Seq<Seq<char>>)
    requires
        args.len() > 0,
    ensures
        shell_mode(joined(all_quoted(args), seq![' '])) == ShellMode::Plain,
        shell_pieces(joined(all_quoted(args), seq![' '])) == args,
    decreases args.len(),
{
    let parts = all_quoted(args);
    if args.len() == 1 {
        let none = Seq::<char>::empty();
        lemma_quoted(none, args[0]);
        assert(none + quoted(args[0]) =~= quoted(args[0]));
        assert(none + args[0] =~= args[0]);
        assert(parts[0] == quoted(args[0]));
        assert(shell_pieces(none).drop_last().push(args[0]) =~= args);
    } else {
        let init = args.drop_last();
        lemma_joined_quoted(init);
        assert(all_quoted(init) =~= parts.drop_last());
        let head = joined(all_quoted(init), seq![' ']);
        let spaced = head + seq![' '];
        assert(spaced.drop_last() =~= head);
        assert(shell_pieces(spaced) == init.push(Seq::empty()));
        lemma_quoted(spaced, args.last());
        assert(Seq::<char>::empty() + args.last() =~= args.last());
        assert(init.push(Seq::<char>::empty()).drop_last() =~= init);
        assert(init.push(args.last()) =~= args);
        assert(parts.last() == quoted(args.last()));
    }
}

proof fn lemma_nonempty_all(pieces: Seq<Seq<char>>)
    requires
        forall|i: int| 0 <= i < pieces.len() ==> (#[trigger] pieces[i]).len() > 0,
    ensures
        nonempty(pieces) == pieces,
    decreases pieces.len(),
{
    if pieces.len() > 0 {
        lemma_nonempty_all(pieces.drop_last());
        assert(nonempty(pieces) =~= pieces);
    } else {
        assert(nonempty(pieces) =~= pieces);
    }
}

/// Quoting and splitting undo each other: a command line made of quoted
/// arguments, none of them empty, splits into exactly these arguments.
pub proof fn law_quoted_arguments_split_back(args: Seq<Seq<char>>)
    requires
        args.len() > 0,
        forall|i: int| 0 <= i < args.len() ==> (#[trigger] args[i]).len() > 0,
    ensures
        words_of(joined(all_quoted(args), seq![' '])) == Ok::<Seq<Seq<char>>, ShellWordsError>(args),
{
    lemma_joined_quoted(args);
    lemma_nonempty_all(args);
}

/// The last word that a completion looks at begins where the splitter begins a
/// new piece: what stands before it ends with a separator, and nothing behind
/// it separates.
pub proof fn law_last_word_has_no_separator(s: Seq<char>, i: int)
    requires
        last_word_start(s) <= i < s.len(),
    ensures
        !separates(s, i),
        last_word_start(s) > 0 ==> separates(s, last_word_start(s) - 1),
    decreases s.len(),
{
    lemma_last_word_start(s);
    if !separates(s, s.len() - 1) {
        let init = s.drop_last();
        lemma_last_word_start(init);
        if i < s.len() - 1 {
            law_last_word_has_no_separator(init, i);
            assert(init.take(i) =~= s.take(i));
        } else if last_word_start(s) < init.len() {
            law_last_word_has_no_separator(init, init.len() - 1);
        }
        let start = last_word_start(init);
        if start > 0 {
            if start == init.len() {
                assert(separates(init, start - 1)) by {
                    lemma_start_at_end(init);
                }
            }
            assert(init.take(start - 1) =~= s.take(start - 1));
        }
    }
}

proof fn lemma_start_at_end(s: Seq<char>)
    requires
        s.len() > 0,
        last_word_start(s) == s.len(),
    ensures
        separates(s, s.len() - 1),
{
    lemma_last_word_start(s.drop_last());
}

proof fn lemma_nonempty_words(pieces: Seq<Seq<char>>, i: int)
    requires
        0 <= i < nonempty(pieces).len(),
    ensures
        nonempty(pieces)[i].len() > 0,
    decreases pieces.len(),
{
    if pieces.len() > 0 {
        let rest = nonempty(pieces.drop_last());
        if i < rest.len() {
            lemma_nonempty_words(pieces.drop_last(), i);
        }
    }
}

/// A command line that has words has at least one, and none of them is empty.
pub proof fn law_words_are_not_empty(s: Seq<char>, i: int)
    requires
        words_of(s) is Ok,
        0 <= i < words_of(s)->Ok_0.len(),
    ensures
        words_of(s)->Ok_0.len() > 0,
        words_of(s)->Ok_0[i].len() > 0,
{
    lemma_nonempty_words(shell_pieces(s), i);
}

} // verus!
