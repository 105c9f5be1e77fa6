//! What a terminal shows of a document: its text, between escape sequences that
//! only style it.
use vstd::prelude::*;
use vstd::string::*;

use crate::ansi::{
    ANSI_BOLD_OFF, ANSI_BOLD_ON, ANSI_FG_CODE, ANSI_FG_LINK, ANSI_FG_RESET, ANSI_FG_SUBTLE,
    ANSI_ITALIC_OFF, ANSI_ITALIC_ON, ANSI_STRIKETHROUGH_OFF, ANSI_STRIKETHROUGH_ON,
    ANSI_UNDERLINE_OFF, ANSI_UNDERLINE_ON,
};
use crate::document::{
    console_text, framed_table, item_separator, item_text, prefixed_lines, rendered,
    rendered_blocks, rendered_cells, rendered_code, rendered_inline, rendered_items, rendered_link,
    rendered_rows, repeated, shown_blocks, table_lines, MdLiteral, MdMark, MdNest, MdTree, Palette,
};
use crate::highlight::{
    code_in_color, escaped_piece, escaped_pieces, highlighted_lines, language_syntax,
    lines_with_endings, plain_code, shown_code, styled_line, StyledText,
};
use crate::number::{all_digits, decimal, is_digit, lemma_decimal_digits};
use crate::status::without_final_newlines;
use crate::text::{
    first_index, joined, lemma_first_index, lemma_first_index_props, lines_of, trimmed,
};

verus! {

/// A text without its escape sequences: each begins with the escape character
/// and ends with the next `m`.
pub open spec fn unstyled(s: Seq<char>) -> Seq<char>
    decreases s.len(),
    via unstyled_decreases
{
    if s.len() == 0 {
        seq![]
    } else if s[0] == '\x1b' {
        if first_index(s, 'm') < s.len() {
            unstyled(s.skip(first_index(s, 'm') + 1))
        } else {
            seq![]
        }
    } else {
        seq![s[0]] + unstyled(s.drop_first())
    }
}

#[via_fn]
proof fn unstyled_decreases(s: Seq<char>) {
    lemma_first_index_props(s, 'm');
}

/// Whether a text is one escape sequence.
pub open spec fn is_escape(e: Seq<char>) -> bool {
    &&& e.len() >= 2
    &&& e[0] == '\x1b'
    &&& e.last() == 'm'
    &&& forall|i: int| 0 <= i < e.len() - 1 ==> #[trigger] e[i] != 'm'
}

/// An escape sequence leaves nothing behind.
pub proof fn law_escapes_are_not_shown(e: Seq<char>, s: Seq<char>)
    requires
        is_escape(e),
    ensures
        unstyled(e + s) == unstyled(s),
{
    let all = e + s;
    lemma_first_index(all, 'm', e.len() - 1);
    assert(all.skip(e.len() as int) =~= s);
}

/// A text without escape characters is shown as it is.
pub proof fn law_plain_text_is_shown(t: Seq<char>, s: Seq<char>)
    requires
        !t.contains('\x1b'),
    ensures
        unstyled(t + s) == t + unstyled(s),
        unstyled(t) == t,
    decreases t.len(),
{
    if t.len() == 0 {
        assert(t + s =~= s);
        assert(t + unstyled(s) =~= unstyled(s));
    } else {
        let rest = t.drop_first();
        assert(t[0] != '\x1b') by {
            assert(t.contains(t[0]));
        }
        assert(!rest.contains('\x1b')) by {
            if rest.contains('\x1b') {
                let i = choose|i: int| 0 <= i < rest.len() && rest[i] == '\x1b';
                assert(t[i + 1] == '\x1b');
            }
        }
        law_plain_text_is_shown(rest, s);
        assert((t + s).drop_first() =~= rest + s);
        assert(seq![t[0]] + (rest + unstyled(s)) =~= t + unstyled(s));
        assert(seq![t[0]] + rest =~= t);
    }
}

/// The escape sequences of the styles, each one of its own.
pub proof fn law_styles_are_escapes()
    ensures
        ANSI_BOLD_ON@ == "\x1b[1m"@ && is_escape(ANSI_BOLD_ON@),
        ANSI_BOLD_OFF@ == "\x1b[22m"@ && is_escape(ANSI_BOLD_OFF@),
        ANSI_ITALIC_ON@ == "\x1b[3m"@ && is_escape(ANSI_ITALIC_ON@),
        ANSI_ITALIC_OFF@ == "\x1b[23m"@ && is_escape(ANSI_ITALIC_OFF@),
        ANSI_UNDERLINE_ON@ == "\x1b[4m"@ && is_escape(ANSI_UNDERLINE_ON@),
        ANSI_UNDERLINE_OFF@ == "\x1b[24m"@ && is_escape(ANSI_UNDERLINE_OFF@),
        ANSI_STRIKETHROUGH_ON@ == "\x1b[9m"@ && is_escape(ANSI_STRIKETHROUGH_ON@),
        ANSI_STRIKETHROUGH_OFF@ == "\x1b[29m"@ && is_escape(ANSI_STRIKETHROUGH_OFF@),
        ANSI_FG_CODE@ == "\x1b[38;2;255;215;120m"@ && is_escape(ANSI_FG_CODE@),
        ANSI_FG_LINK@ == "\x1b[38;2;102;178;255m"@ && is_escape(ANSI_FG_LINK@),
        ANSI_FG_SUBTLE@ == "\x1b[38;2;180;190;205m"@ && is_escape(ANSI_FG_SUBTLE@),
        ANSI_FG_RESET@ == "\x1b[39m"@ && is_escape(ANSI_FG_RESET@),
        crate::ansi::ANSI_FG_LIGHT_GREEN@ == "\x1b[38;2;170;255;170m"@,
        crate::ansi::ANSI_FG_LIGHT_RED@ == "\x1b[38;2;255;170;170m"@,
        crate::ansi::ANSI_RESET@ == "\x1b[0m"@,
{
    reveal_strlit("\x1b[1m");
    reveal_strlit("\x1b[22m");
    reveal_strlit("\x1b[3m");
    reveal_strlit("\x1b[23m");
    reveal_strlit("\x1b[4m");
    reveal_strlit("\x1b[24m");
    reveal_strlit("\x1b[9m");
    reveal_strlit("\x1b[29m");
    reveal_strlit("\x1b[38;2;255;215;120m");
    reveal_strlit("\x1b[38;2;102;178;255m");
    reveal_strlit("\x1b[38;2;180;190;205m");
    reveal_strlit("\x1b[39m");
}

/// The text of the pieces of a line.
pub open spec fn pieces_text(pieces: Seq<StyledText<Seq<char>>>) -> Seq<char>
    decreases pieces.len(),
{
    if pieces.len() == 0 {
        seq![]
    } else {
        pieces_text(pieces.drop_last()) + pieces.last().text
    }
}

proof fn lemma_piece_escape(piece: StyledText<Seq<char>>) -> (e: Seq<char>)
    ensures
        is_escape(e),
        escaped_piece(piece) == e + piece.text,
{
    let (f, b) = (piece.foreground, piece.background);
    let r = decimal(crate::highlight::blended(f.r, b.r, f.a));
    let g = decimal(crate::highlight::blended(f.g, b.g, f.a));
    let c = decimal(crate::highlight::blended(f.b, b.b, f.a));
    reveal_strlit("\x1b[38;2;");
    reveal_strlit(";");
    reveal_strlit("m");
    let head = "\x1b[38;2;"@ + r + ";"@ + g + ";"@ + c;
    let e = head + "m"@;
    lemma_decimal_digits(crate::highlight::blended(f.r, b.r, f.a));
    lemma_decimal_digits(crate::highlight::blended(f.g, b.g, f.a));
    lemma_decimal_digits(crate::highlight::blended(f.b, b.b, f.a));
    lemma_no_m(r);
    lemma_no_m(g);
    lemma_no_m(c);
    assert forall|i: int| 0 <= i < e.len() - 1 implies #[trigger] e[i] != 'm' by {
        let n1: int = 7;
        let n2: int = n1 + r.len();
        let n3: int = n2 + 1;
        let n4: int = n3 + g.len();
        let n5: int = n4 + 1;
        if i < n1 {
            assert(e[i] == "\x1b[38;2;"@[i]);
        } else if i < n2 {
            assert(e[i] == r[i - n1]);
        } else if i < n3 {
            assert(e[i] == ';');
        } else if i < n4 {
            assert(e[i] == g[i - n3]);
        } else if i < n5 {
            assert(e[i] == ';');
        } else {
            assert(e[i] == c[i - n5]);
        }
    }
    assert(e[0] == '\x1b');
    e
}

proof fn lemma_no_m(d: Seq<char>)
    requires
        all_digits(d),
    ensures
        forall|i: int| 0 <= i < d.len() ==> #[trigger] d[i] != 'm',
{
    assert forall|i: int| 0 <= i < d.len() implies #[trigger] d[i] != 'm' by {
        assert(is_digit(d[i]));
    }
}

/// Colouring the pieces of a line keeps their text: without the escape sequences
/// it is what was coloured.
pub proof fn law_colours_keep_the_text(pieces: Seq<StyledText<Seq<char>>>, s: Seq<char>)
    requires
        !pieces_text(pieces).contains('\x1b'),
    ensures
        unstyled(escaped_pieces(pieces) + s) == pieces_text(pieces) + unstyled(s),
    decreases pieces.len(),
{
    if pieces.len() == 0 {
        assert(escaped_pieces(pieces) + s =~= s);
        assert(pieces_text(pieces) + unstyled(s) =~= unstyled(s));
    } else {
        let init = pieces.drop_last();
        let text = pieces.last().text;
        let before = pieces_text(init);
        assert(!before.contains('\x1b') && !text.contains('\x1b')) by {
            let all = before + text;
            if before.contains('\x1b') {
                let i = choose|i: int| 0 <= i < before.len() && before[i] == '\x1b';
                assert(all[i] == '\x1b');
            }
            if text.contains('\x1b') {
                let i = choose|i: int| 0 <= i < text.len() && text[i] == '\x1b';
                assert(all[before.len() + i] == '\x1b');
            }
        }
        let e = lemma_piece_escape(pieces.last());
        let tail = e + (text + s);
        assert(escaped_pieces(pieces) + s =~= escaped_pieces(init) + tail);
        law_colours_keep_the_text(init, tail);
        law_escapes_are_not_shown(e, text + s);
        law_plain_text_is_shown(text, s);
        assert(before + (text + unstyled(s)) =~= (before + text) + unstyled(s));
    }
}

/// Whether the highlighter hands the text of each line on, cut into pieces.
pub open spec fn hands_text_on(syntax: (Seq<Seq<char>>, int), theme: Seq<Seq<char>>) -> bool {
    forall|earlier: Seq<Seq<char>>, line: Seq<char>|
        (#[trigger] styled_line(syntax, theme, earlier, line)) matches Ok(pieces) ==> pieces_text(
            pieces,
        ) == line
}

proof fn lemma_highlighted_at(
    syntax: (Seq<Seq<char>>, int),
    theme: Seq<Seq<char>>,
    rows: Seq<Seq<char>>,
    done: Seq<Seq<char>>,
    i: int,
)
    requires
        highlighted_lines(syntax, theme, rows) == Ok::<Seq<Seq<char>>, Seq<char>>(done),
        hands_text_on(syntax, theme),
        0 <= i < rows.len(),
        !rows[i].contains('\x1b'),
    ensures
        done.len() == rows.len(),
        unstyled(done[i]) == rows[i],
    decreases rows.len(),
{
    let init = rows.drop_last();
    let part = highlighted_lines(syntax, theme, init)->Ok_0;
    lemma_highlighted_len(syntax, theme, init);
    if i < init.len() {
        lemma_highlighted_at(syntax, theme, init, part, i);
    } else {
        let pieces = styled_line(syntax, theme, init, rows.last())->Ok_0;
        let none = Seq::<char>::empty();
        law_colours_keep_the_text(pieces, none);
        assert(escaped_pieces(pieces) + none =~= escaped_pieces(pieces));
        assert(pieces_text(pieces) + unstyled(none) =~= pieces_text(pieces));
    }
}

proof fn lemma_highlighted_len(
    syntax: (Seq<Seq<char>>, int),
    theme: Seq<Seq<char>>,
    rows: Seq<Seq<char>>,
)
    ensures
        highlighted_lines(syntax, theme, rows) matches Ok(done) ==> done.len() == rows.len(),
    decreases rows.len(),
{
    if rows.len() > 0 {
        lemma_highlighted_len(syntax, theme, rows.drop_last());
    }
}

/// Code without a language is shown line by line in the colour of code, between
/// its fences.
pub proof fn law_code_without_a_language_is_plain(p: Palette, value: Seq<char>)
    requires
        value.len() > 0,
    ensures
        rendered_code(p, None, value) == joined(
            seq!["\x1b[38;2;255;215;120m"@ + "```"@ + "\x1b[39m"@] + Seq::new(
                lines_of(value).len(),
                |i: int| "\x1b[38;2;255;215;120m"@ + lines_of(value)[i] + "\x1b[39m"@,
            ) + seq!["\x1b[38;2;255;215;120m"@ + "```"@ + "\x1b[39m"@],
            "\n"@,
        ),
{
    let rows = Seq::new(
        lines_of(value).len(),
        |i: int| "\x1b[38;2;255;215;120m"@ + lines_of(value)[i] + "\x1b[39m"@,
    );
    assert(plain_code(value) =~= rows);
}

/// Rendering loses no code: a block that is not empty has its fences around as
/// many rows as the code has lines, and without escape sequences each row shows
/// its line. Where the language is known, that is as far as the highlighter
/// hands the text on; it keeps the ends of the lines.
pub proof fn law_code_is_not_lost(
    p: Palette,
    language: Option<Seq<char>>,
    value: Seq<char>,
    i: int,
)
    requires
        value.len() > 0,
        !value.contains('\x1b'),
        language_syntax(p.definitions, language) matches Some(k) ==> hands_text_on(
            (p.definitions, k),
            p.theme,
        ),
        0 <= i < lines_of(value).len(),
    ensures
        ({
            let rows = shown_code(code_in_color(p.definitions, p.theme, language, value), value);
            let opener = "\x1b[38;2;255;215;120m"@ + (match language {
                Some(name) => "```"@ + name,
                None => "```"@,
            }) + "\x1b[39m"@;
            let closer = "\x1b[38;2;255;215;120m"@ + "```"@ + "\x1b[39m"@;
            &&& rendered_code(p, language, value) == joined(
                seq![opener] + rows + seq![closer],
                "\n"@,
            )
            &&& rows.len() == lines_of(value).len()
            &&& unstyled(rows[i]) == lines_of(value)[i] || without_final_newlines(
                unstyled(rows[i]),
            ) == without_final_newlines(lines_with_endings(value)[i])
        }),
{
    let rows = shown_code(code_in_color(p.definitions, p.theme, language, value), value);
    lemma_line_counts(value);
    lemma_lines_have_no_escape(value, i);
    law_styles_are_escapes();
    let plain = plain_code(value);
    let line = lines_of(value)[i];
    let none = Seq::<char>::empty();
    assert(plain[i] == ANSI_FG_CODE@ + line + ANSI_FG_RESET@);
    assert(unstyled(plain[i]) == line) by {
        assert(ANSI_FG_CODE@ + line + ANSI_FG_RESET@ =~= ANSI_FG_CODE@ + (line + (ANSI_FG_RESET@
            + none)));
        law_escapes_are_not_shown(ANSI_FG_CODE@, line + (ANSI_FG_RESET@ + none));
        law_plain_text_is_shown(line, ANSI_FG_RESET@ + none);
        law_escapes_are_not_shown(ANSI_FG_RESET@, none);
        assert(line + unstyled(none) =~= line);
    }
    if let Some(Ok(done)) = code_in_color(p.definitions, p.theme, language, value) {
        let k = language_syntax(p.definitions, language)->Some_0;
        let whole = lines_with_endings(value);
        lemma_highlighted_at((p.definitions, k), p.theme, whole, done, i);
        if done.len() > 0 {
            assert(rows[i] == without_final_newlines(done[i]));
            lemma_final_newlines_unstyled(done[i]);
        }
    }
}

/// Dropping the line feeds at the end of a row drops line feeds of its text, and
/// nothing else.
proof fn lemma_final_newlines_unstyled(s: Seq<char>)
    ensures
        without_final_newlines(unstyled(without_final_newlines(s))) == without_final_newlines(
            unstyled(s),
        ),
    decreases s.len(),
{
    if s.len() > 0 && s.last() == '\n' {
        let init = s.drop_last();
        lemma_final_newlines_unstyled(init);
        lemma_unstyled_newline(init);
        assert(init.push('\n') =~= s);
        let a = unstyled(init);
        assert(a.push('\n').drop_last() =~= a);
    }
}

proof fn lemma_unstyled_newline(s: Seq<char>)
    ensures
        unstyled(s.push('\n')) == unstyled(s).push('\n') || unstyled(s.push('\n')) == unstyled(s),
    decreases s.len(),
{
    let t = s.push('\n');
    if s.len() == 0 {
        assert(t.drop_first() =~= s);
        assert(unstyled(t) =~= unstyled(s).push('\n'));
    } else if s[0] == '\x1b' {
        lemma_first_index_props(s, 'm');
        lemma_first_index_props(t, 'm');
        let k = first_index(s, 'm');
        if k < s.len() {
            lemma_first_index(t, 'm', k);
            assert(t.skip(k + 1) =~= s.skip(k + 1).push('\n'));
            lemma_unstyled_newline(s.skip(k + 1));
        } else {
            lemma_first_index(t, 'm', t.len() as int);
        }
    } else {
        assert(t.drop_first() =~= s.drop_first().push('\n'));
        lemma_unstyled_newline(s.drop_first());
        let a = unstyled(s.drop_first());
        assert((seq![s[0]] + a).push('\n') =~= seq![s[0]] + a.push('\n'));
    }
}

proof fn lemma_line_counts(s: Seq<char>)
    ensures
        lines_with_endings(s).len() == lines_of(s).len(),
{
    crate::show_file::law_listing_has_every_line(
        s,
        seq![],
        None,
        crate::command::ShowFileOptions { show_hash: false, show_author: false },
    );
    if s.len() == 0 {
        lemma_first_index_props(s, '\n');
        assert(crate::text::split_on(s, '\n') =~= seq![s]);
    }
}

proof fn lemma_pieces_of_text(s: Seq<char>, c: char, x: char, i: int)
    requires
        !s.contains(x),
        0 <= i < crate::text::split_on(s, c).len(),
    ensures
        !crate::text::split_on(s, c)[i].contains(x),
    decreases s.len(),
{
    let n = first_index(s, c);
    lemma_first_index_props(s, c);
    let head = s.take(n);
    assert(!head.contains(x)) by {
        if head.contains(x) {
            let j = choose|j: int| 0 <= j < head.len() && head[j] == x;
            assert(s[j] == x);
        }
    }
    if n < s.len() {
        let rest = s.skip(n + 1);
        assert(!rest.contains(x)) by {
            if rest.contains(x) {
                let j = choose|j: int| 0 <= j < rest.len() && rest[j] == x;
                assert(s[j + n + 1] == x);
            }
        }
        if i > 0 {
            lemma_pieces_of_text(rest, c, x, i - 1);
        }
    } else {
        assert(head =~= s);
    }
}

proof fn lemma_lines_have_no_escape(s: Seq<char>, i: int)
    requires
        !s.contains('\x1b'),
        0 <= i < lines_of(s).len(),
    ensures
        !lines_of(s)[i].contains('\x1b'),
        i < lines_with_endings(s).len() ==> !lines_with_endings(s)[i].contains('\x1b'),
{
    let pieces = crate::text::split_on(s, '\n');
    lemma_pieces_of_text(s, '\n', '\x1b', i);
    let line = lines_of(s)[i];
    if line.contains('\x1b') {
        let j = choose|j: int| 0 <= j < line.len() && line[j] == '\x1b';
        assert(pieces[i][j] == '\x1b');
    }
    if i < lines_with_endings(s).len() {
        lemma_endings_have_no_escape(s, i);
    }
}

proof fn lemma_endings_have_no_escape(s: Seq<char>, i: int)
    requires
        !s.contains('\x1b'),
        0 <= i < lines_with_endings(s).len(),
    ensures
        !lines_with_endings(s)[i].contains('\x1b'),
    decreases s.len(),
{
    let n = first_index(s, '\n');
    lemma_first_index_props(s, '\n');
    if n < s.len() {
        let head = s.take(n + 1);
        assert(!head.contains('\x1b')) by {
            if head.contains('\x1b') {
                let j = choose|j: int| 0 <= j < head.len() && head[j] == '\x1b';
                assert(s[j] == '\x1b');
            }
        }
        let rest = s.skip(n + 1);
        assert(!rest.contains('\x1b')) by {
            if rest.contains('\x1b') {
                let j = choose|j: int| 0 <= j < rest.len() && rest[j] == '\x1b';
                assert(s[j + n + 1] == '\x1b');
            }
        }
        if i > 0 {
            lemma_endings_have_no_escape(rest, i - 1);
        }
    }
}

/// Splitting a text into lines with their endings loses nothing: together they
/// are the text, and a line feed stands only at the end of a line.
pub proof fn law_lines_with_endings_add_up(s: Seq<char>, i: int)
    ensures
        joined(lines_with_endings(s), seq![]) == s,
        0 <= i < lines_with_endings(s).len() ==> lines_with_endings(s)[i].len() > 0
            && !lines_with_endings(s)[i].drop_last().contains('\n'),
    decreases s.len(),
{
    let n = first_index(s, '\n');
    lemma_first_index_props(s, '\n');
    let rows = lines_with_endings(s);
    if s.len() == 0 {
    } else if n >= s.len() {
        assert(s.drop_last().contains('\n') ==> s.contains('\n')) by {
            if s.drop_last().contains('\n') {
                let j = choose|j: int| 0 <= j < s.drop_last().len() && s.drop_last()[j] == '\n';
                assert(s[j] == '\n');
            }
        }
    } else {
        let rest = s.skip(n + 1);
        let head = s.take(n + 1);
        law_lines_with_endings_add_up(rest, i - 1);
        lemma_joined_first(head, lines_with_endings(rest));
        assert(head + rest =~= s);
        assert(!head.drop_last().contains('\n')) by {
            if head.drop_last().contains('\n') {
                let j = choose|j: int|
                    0 <= j < head.drop_last().len() && head.drop_last()[j] == '\n';
                assert(s[j] == '\n');
            }
        }
    }
}

proof fn lemma_joined_first(a: Seq<char>, rest: Seq<Seq<char>>)
    ensures
        joined(seq![a] + rest, seq![]) == a + joined(rest, seq![]),
    decreases rest.len(),
{
    let none = Seq::<char>::empty();
    let all = seq![a] + rest;
    if rest.len() == 0 {
        assert(all =~= seq![a]);
        assert(a + none =~= a);
    } else {
        lemma_joined_first(a, rest.drop_last());
        assert(all.drop_last() =~= seq![a] + rest.drop_last());
        if rest.len() == 1 {
            assert(rest.drop_last() =~= seq![]);
            assert(joined(all, none) =~= a + rest[0]);
        } else {
            assert(joined(all, none) =~= a + joined(rest, none));
        }
    }
}

/// The styles of running text: each puts its escape sequences around the text,
/// and nothing else.
pub proof fn law_styles_stand_around_their_text(p: Palette, parts: Seq<MdTree>, text: Seq<char>)
    ensures
        ({
            let body = rendered_inline(p, parts);
            &&& rendered(p, MdTree::Nest(MdNest::Strong, parts)) == "\x1b[1m"@ + body + "\x1b[22m"@
            &&& rendered(p, MdTree::Nest(MdNest::Emphasis, parts)) == "\x1b[3m"@ + body
                + "\x1b[23m"@
            &&& rendered(p, MdTree::Nest(MdNest::Delete, parts)) == "\x1b[9m"@ + body + "\x1b[29m"@
            &&& rendered(p, MdTree::Nest(MdNest::Paragraph, parts)) == body
            &&& rendered(p, MdTree::Nest(MdNest::LinkReference, parts)) == body
        }),
        rendered(p, MdTree::Literal(MdLiteral::Text, text)) == text,
        rendered(p, MdTree::Literal(MdLiteral::Html, text)) == text,
        rendered(p, MdTree::Literal(MdLiteral::Math, text)) == text,
        rendered(p, MdTree::Literal(MdLiteral::InlineCode, text)) == "\x1b[38;2;255;215;120m"@
            + "`"@ + text + "\x1b[39m"@ + "`"@,
        rendered(p, MdTree::Literal(MdLiteral::InlineMath, text)) == "\x1b[38;2;255;215;120m"@
            + "$"@ + text + "\x1b[39m"@ + "$"@,
        rendered(p, MdTree::Literal(MdLiteral::ImageReference, text)) == "[image: "@ + text + "]"@,
        rendered(p, MdTree::Literal(MdLiteral::FootnoteReference, text)) == "[^"@ + text + "]"@,
        rendered(p, MdTree::Mark(MdMark::Break)) == "\n"@,
        rendered(p, MdTree::Mark(MdMark::Definition)) == Seq::<char>::empty(),
        rendered(p, MdTree::Mark(MdMark::ThematicBreak)).len() == 40,
        forall|i: int|
            0 <= i < 40 ==> #[trigger] rendered(p, MdTree::Mark(MdMark::ThematicBreak))[i] == '-',
{
    law_styles_are_escapes();
}

/// A heading has as many marks as it is deep, and its text, in bold.
pub proof fn law_headings_have_their_depth(p: Palette, depth: u8, parts: Seq<MdTree>)
    ensures
        ({
            let marks = Seq::new(depth as nat, |i: int| '#');
            rendered(p, MdTree::Heading(depth, parts)) == "\x1b[1m"@ + marks + " "@
                + rendered_inline(p, parts) + "\x1b[22m"@
        }),
{
    law_styles_are_escapes();
    assert(repeated('#', depth as nat) =~= Seq::new(depth as nat, |i: int| '#'));
}

/// A link shows its label, and its target too where the label does not show it.
pub proof fn law_links_show_label_and_target(label: Seq<char>, url: Seq<char>, alt: Seq<char>)
    ensures
        rendered_link(url, url) == "\x1b[38;2;102;178;255m"@ + "\x1b[4m"@ + url + "\x1b[24m"@
            + "\x1b[39m"@,
        rendered_link(seq![], url) == rendered_link(url, url),
        label.len() > 0 && label != url ==> rendered_link(label, url)
            == "\x1b[38;2;102;178;255m"@ + "\x1b[4m"@ + label + "\x1b[24m"@ + "\x1b[39m"@
            + "\x1b[38;2;180;190;205m"@ + " ("@ + url + ")"@ + "\x1b[39m"@,
        forall|p: Palette| #[trigger]
            rendered(p, MdTree::Image(alt, url)) == "[image: "@ + alt + "] ("@ + url + ")"@,
{
    law_styles_are_escapes();
}

/// A link node is a link with the text of its parts as its label.
pub proof fn law_link_nodes_are_links(p: Palette, url: Seq<char>, parts: Seq<MdTree>)
    ensures
        rendered(p, MdTree::Link(url, parts)) == rendered_link(rendered_inline(p, parts), url),
        rendered(p, MdTree::Code(None, url)) == rendered_code(p, None, url),
        rendered(p, MdTree::Code(Some(url), url)) == rendered_code(p, Some(url), url),
{
}

/// Running text is shown part by part: what comes first is shown first, and
/// nothing stands between the parts.
pub proof fn law_running_text_is_shown_in_order(p: Palette, a: Seq<MdTree>, b: Seq<MdTree>, t: MdTree)
    ensures
        rendered_inline(p, a + b) == rendered_inline(p, a) + rendered_inline(p, b),
        rendered_inline(p, seq![t]) == rendered(p, t),
    decreases b.len(),
{
    assert(seq![t].drop_last() =~= seq![]);
    assert(rendered_inline(p, seq![]) + rendered(p, t) =~= rendered(p, t));
    if b.len() == 0 {
        assert(a + b =~= a);
        assert(rendered_inline(p, a) + rendered_inline(p, b) =~= rendered_inline(p, a));
    } else {
        law_running_text_is_shown_in_order(p, a, b.drop_last(), t);
        assert((a + b).drop_last() =~= a + b.drop_last());
        assert(rendered_inline(p, a + b) =~= rendered_inline(p, a) + rendered_inline(p, b));
    }
}

/// Blocks are shown in order; one that shows nothing leaves no gap, and every
/// other one is shown.
pub proof fn law_blocks_are_shown_in_order(p: Palette, a: Seq<MdTree>, b: Seq<MdTree>, t: MdTree)
    ensures
        shown_blocks(p, a + b) == shown_blocks(p, a) + shown_blocks(p, b),
        shown_blocks(p, seq![t]) == (if trimmed(rendered(p, t)).len() == 0 {
            Seq::<Seq<char>>::empty()
        } else {
            seq![rendered(p, t)]
        }),
    decreases b.len(),
{
    reveal_with_fuel(shown_blocks, 2);
    assert(seq![t].drop_last() =~= seq![]);
    assert(shown_blocks(p, seq![t].drop_last()) =~= seq![]);
    assert(shown_blocks(p, seq![t]) =~= (if trimmed(rendered(p, t)).len() == 0 {
        Seq::<Seq<char>>::empty()
    } else {
        seq![rendered(p, t)]
    }));
    if b.len() == 0 {
        assert(a + b =~= a);
        assert(shown_blocks(p, a) + shown_blocks(p, b) =~= shown_blocks(p, a));
    } else {
        law_blocks_are_shown_in_order(p, a, b.drop_last(), t);
        assert((a + b).drop_last() =~= a + b.drop_last());
        assert(shown_blocks(p, a + b) =~= shown_blocks(p, a) + shown_blocks(p, b));
    }
}

/// Two paragraphs that show something stand apart by an empty line, in a document
/// as in a quotation.
pub proof fn law_paragraphs_stand_apart(p: Palette, a: MdTree, b: MdTree)
    requires
        trimmed(rendered(p, a)).len() > 0,
        trimmed(rendered(p, b)).len() > 0,
    ensures
        rendered(p, MdTree::Nest(MdNest::Root, seq![a, b])) == rendered(p, a) + "\n\n"@ + rendered(
            p,
            b,
        ),
        rendered(p, MdTree::Nest(MdNest::Root, seq![a])) == rendered(p, a),
{
    law_blocks_are_shown_in_order(p, seq![a], seq![b], a);
    law_blocks_are_shown_in_order(p, seq![], seq![b], b);
    assert(seq![a] + seq![b] =~= seq![a, b]);
    let (x, y) = (rendered(p, a), rendered(p, b));
    assert(seq![x] + seq![y] =~= seq![x, y]);
    assert(seq![x, y].drop_last() =~= seq![x]);
    reveal_with_fuel(joined, 2);
}

/// A quotation marks every line of what it holds.
pub proof fn law_quotations_mark_every_line(p: Palette, parts: Seq<MdTree>)
    ensures
        ({
            let rows = lines_of(rendered(p, MdTree::Nest(MdNest::Root, parts)));
            rendered(p, MdTree::Nest(MdNest::Blockquote, parts)) == joined(
                Seq::new(rows.len(), |i: int| "> "@ + rows[i]),
                "\n"@,
            )
        }),
{
    let rows = lines_of(rendered(p, MdTree::Nest(MdNest::Root, parts)));
    assert(prefixed_lines(rows, "> "@, "> "@) =~= Seq::new(rows.len(), |i: int| "> "@ + rows[i]));
}

/// An item stands behind its marker; its further lines stand below its first, as
/// far to the right.
pub proof fn law_items_stand_behind_their_marker(body: Seq<char>, marker: Seq<char>)
    ensures
        ({
            let rows = lines_of(body);
            item_text(body, marker) == joined(
                Seq::new(
                    rows.len(),
                    |i: int|
                        (if i == 0 {
                            marker + " "@
                        } else {
                            Seq::new((marker.len() + 1) as nat, |k: int| ' ')
                        }) + rows[i],
                ),
                "\n"@,
            )
        }),
{
    let rows = lines_of(body);
    let blanks = repeated(' ', (marker.len() + 1) as nat);
    assert(blanks =~= Seq::new((marker.len() + 1) as nat, |k: int| ' '));
    let want = Seq::new(
        rows.len(),
        |i: int|
            (if i == 0 {
                marker + " "@
            } else {
                Seq::new((marker.len() + 1) as nat, |k: int| ' ')
            }) + rows[i],
    );
    assert(prefixed_lines(rows, marker + " "@, blanks) =~= want);
}

/// The items of a list follow each other, one after the other: those of an
/// ordered list are numbered on from its first number, those of another one
/// have dashes.
pub proof fn law_items_are_numbered_on(
    p: Palette,
    items: Seq<MdTree>,
    ordered: bool,
    start: nat,
    i: int,
)
    requires
        0 <= i < items.len(),
        forall|j: int| 0 <= j < items.len() ==> (#[trigger] items[j]) is ListItem,
    ensures
        ({
            let rows = rendered_items(p, items, ordered, start);
            let marker = if ordered {
                decimal((start + i) as nat) + "."@
            } else {
                "-"@
            };
            let parts = items[i]->ListItem_1;
            let gap = if items[i]->ListItem_0 {
                "\n\n"@
            } else {
                "\n"@
            };
            &&& rows.len() == items.len()
            &&& rows[i] == item_text(joined(shown_blocks(p, parts), gap), marker)
        }),
    decreases items.len(),
{
    let init = items.drop_last();
    assert forall|j: int| 0 <= j < init.len() implies (#[trigger] init[j]) is ListItem by {
        assert(init[j] == items[j]);
    }
    lemma_items_count(p, init, ordered, start);
    assert(items[items.len() - 1] is ListItem);
    if i < init.len() {
        law_items_are_numbered_on(p, init, ordered, start, i);
    } else {
        reveal_with_fuel(rendered_items, 2);
        reveal_with_fuel(rendered_blocks, 2);
        let parts = items[i]->ListItem_1;
        let gap = item_separator(items[i]->ListItem_0);
        assert(rendered_blocks(p, parts, gap) == joined(shown_blocks(p, parts), gap));
    }
}

proof fn lemma_items_count(p: Palette, items: Seq<MdTree>, ordered: bool, start: nat)
    requires
        forall|j: int| 0 <= j < items.len() ==> (#[trigger] items[j]) is ListItem,
    ensures
        rendered_items(p, items, ordered, start).len() == items.len(),
    decreases items.len(),
{
    if items.len() > 0 {
        let init = items.drop_last();
        assert forall|j: int| 0 <= j < init.len() implies (#[trigger] init[j]) is ListItem by {
            assert(init[j] == items[j]);
        }
        assert(items[items.len() - 1] is ListItem);
        lemma_items_count(p, init, ordered, start);
    }
}

/// A list shows its items line below line, counting from its first number, or
/// from one.
pub proof fn law_lists_show_their_items(p: Palette, ordered: bool, n: u32, items: Seq<MdTree>)
    ensures
        rendered(p, MdTree::List(ordered, Some(n), items)) == joined(
            rendered_items(p, items, ordered, n as nat),
            "\n"@,
        ),
        rendered(p, MdTree::List(ordered, None, items)) == joined(
            rendered_items(p, items, ordered, 1),
            "\n"@,
        ),
{
}

/// A table shows each row with bars around its cells, and below the first one a
/// ruler with as many cells.
pub proof fn law_tables_show_every_row(rows: Seq<Seq<Seq<char>>>, i: int)
    requires
        0 <= i < rows.len(),
    ensures
        ({
            let all = table_lines(rows);
            let dashes = Seq::new(rows[0].len(), |k: int| "---"@);
            &&& all.len() == rows.len() + 1
            &&& all[0] == "| "@ + joined(rows[0], " | "@) + " |"@
            &&& all[1] == "| "@ + joined(dashes, " | "@) + " |"@
            &&& i > 0 ==> all[i + 1] == "| "@ + joined(rows[i], " | "@) + " |"@
            &&& framed_table(rows) == joined(all, "\n"@)
        }),
    decreases rows.len(),
{
    if rows.len() > 1 {
        let init = rows.drop_last();
        if i < init.len() {
            law_tables_show_every_row(init, i);
        } else {
            law_tables_show_every_row(init, 0);
        }
    }
}

/// A table node is the table of its rows, and a row that of its cells.
pub proof fn law_table_nodes_show_their_cells(
    p: Palette,
    rows: Seq<MdTree>,
    cells: Seq<MdTree>,
    parts: Seq<MdTree>,
)
    ensures
        rendered(p, MdTree::Nest(MdNest::Table, rows)) == framed_table(rendered_rows(p, rows)),
        rendered_rows(p, rows.push(MdTree::Nest(MdNest::TableRow, cells))) == rendered_rows(
            p,
            rows,
        ).push(rendered_cells(p, cells)),
        rendered_cells(p, cells.push(MdTree::Nest(MdNest::TableCell, parts))) == rendered_cells(
            p,
            cells,
        ).push(rendered_inline(p, parts)),
{
    assert(rows.push(MdTree::Nest(MdNest::TableRow, cells)).drop_last() =~= rows);
    assert(cells.push(MdTree::Nest(MdNest::TableCell, parts)).drop_last() =~= cells);
}

/// What cannot be read as markdown is shown as it is, and what can is shown as
/// the document that it is.
pub proof fn law_unreadable_text_is_shown_as_it_is(p: Palette, text: Seq<char>, t: MdTree)
    ensures
        console_text(p, text, None) == text,
        text.len() > 0 ==> console_text(p, text, Some(t)) == rendered(p, t),
        console_text(p, seq![], Some(t)).len() == 0,
{
    if text.len() == 0 {
        assert(console_text(p, text, None) =~= text);
    }
}

} // verus!
