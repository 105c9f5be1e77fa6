//! Source text in the colours of its language.
use vstd::prelude::*;
use vstd::string::*;

use crate::ansi::{ANSI_FG_CODE, ANSI_FG_RESET};
use crate::number::decimal;
use crate::paths::{extension, extension_of, file_name, name_of_path};
use crate::status::{trim_final_newlines, without_final_newlines};
use crate::text::{
    chars_of, first_index, lemma_first_index, lemma_first_index_props, lemma_texts_push, lines,
    lines_of, string_of, texts, trim, trimmed,
};
use syntect::easy::HighlightLines;
use syntect::highlighting::{Color, FontStyle, Style, Theme, ThemeSet};
use syntect::parsing::{SyntaxReference, SyntaxSet};
use syntect::util::as_24_bit_terminal_escaped;

verus! {

/// Declares a set of syntaxes.
#[verifier::external_type_specification]
#[verifier::external_body]
pub struct ExSyntaxSet(syntect::parsing::SyntaxSet);

/// Declares a syntax of a set.
#[verifier::external_type_specification]
#[verifier::external_body]
pub struct ExSyntaxReference(syntect::parsing::SyntaxReference);

/// Declares a theme.
#[verifier::external_type_specification]
#[verifier::external_body]
pub struct ExTheme(syntect::highlighting::Theme);

/// Declares a highlighter.
#[verifier::external_type_specification]
#[verifier::external_body]
pub struct ExHighlightLines<'a>(syntect::easy::HighlightLines<'a>);

/// A colour: red, green, blue and opacity.
#[derive(Clone, Copy, Debug, PartialEq, Eq, Structural)]
pub struct Rgba {
    pub r: u8,
    pub g: u8,
    pub b: u8,
    pub a: u8,
}

/// A piece of a line with its colours; its text is of the type `T`.
#[derive(Debug, PartialEq, Eq)]
pub struct StyledText<T> {
    pub foreground: Rgba,
    pub background: Rgba,
    pub text: T,
}

impl View for StyledText<String> {
    type V = StyledText<Seq<char>>;

    open spec fn view(&self) -> StyledText<Seq<char>> {
        StyledText { foreground: self.foreground, background: self.background, text: self.text@ }
    }
}

/// The views of the pieces of a line.
pub open spec fn piece_views(v: Seq<StyledText<String>>) -> Seq<StyledText<Seq<char>>> {
    v.map_values(|p: StyledText<String>| p@)
}

/// The view of the pieces of a line, or of what is wrong with it.
pub open spec fn pieces_result(r: Result<Vec<StyledText<String>>, String>) -> Result<
    Seq<StyledText<Seq<char>>>,
    Seq<char>,
> {
    match r {
        Ok(v) => Ok(piece_views(v@)),
        Err(e) => Err(e@),
    }
}

/// The definitions that a set of syntaxes holds.
pub uninterp spec fn syntax_definitions(set: SyntaxSet) -> Seq<Seq<char>>;

/// The definitions of the set that a syntax belongs to, and its position among
/// them.
pub uninterp spec fn syntax_place(syntax: SyntaxReference) -> (Seq<Seq<char>>, int);

/// The rules that a theme holds.
pub uninterp spec fn theme_rules(theme: Theme) -> Seq<Seq<char>>;

/// The rules of a theme that comes with the highlighter.
pub uninterp spec fn bundled_theme(name: Seq<char>) -> Option<Seq<Seq<char>>>;

/// The syntax that a highlighter follows.
pub uninterp spec fn highlighter_syntax(highlighter: HighlightLines<'_>) -> (Seq<Seq<char>>, int);

/// The rules of the theme that a highlighter follows.
pub uninterp spec fn highlighter_theme(highlighter: HighlightLines<'_>) -> Seq<Seq<char>>;

/// The lines that a highlighter has taken, in order.
pub uninterp spec fn highlighter_lines(highlighter: HighlightLines<'_>) -> Seq<Seq<char>>;

/// The position of the syntax that a token stands for.
pub uninterp spec fn syntax_for_token(definitions: Seq<Seq<char>>, token: Seq<char>) -> Option<int>;

/// The position of the syntax for files with an extension.
pub uninterp spec fn syntax_for_extension(
    definitions: Seq<Seq<char>>,
    extension: Seq<char>,
) -> Option<int>;

/// The position of the syntax for files with a first line.
pub uninterp spec fn syntax_for_first_line(
    definitions: Seq<Seq<char>>,
    line: Seq<char>,
) -> Option<int>;

/// The position of the syntax without colours, if there is one.
pub uninterp spec fn plain_syntax(definitions: Seq<Seq<char>>) -> Option<int>;

/// The pieces of a line, or what is wrong with it: by a syntax, the rules of a
/// theme, and the lines before it.
pub uninterp spec fn styled_line(
    syntax: (Seq<Seq<char>>, int),
    theme: Seq<Seq<char>>,
    earlier: Seq<Seq<char>>,
    line: Seq<char>,
) -> Result<Seq<StyledText<Seq<char>>>, Seq<char>>;

/// Whether a syntax is the one at a position of a set, if there is one.
pub open spec fn found_at(
    syntax: Option<&SyntaxReference>,
    definitions: Seq<Seq<char>>,
    position: Option<int>,
) -> bool {
    match syntax {
        Some(s) => position matches Some(i) && syntax_place(*s) == (definitions, i),
        None => position is None,
    }
}

/// `SyntaxSet::load_defaults_newlines` loads the definitions that come with the
/// highlighter. There is one for text without colours among them; which others
/// there are is left open.
#[verifier::external_body]
fn load_syntaxes() -> (r: SyntaxSet)
    ensures
        plain_syntax(syntax_definitions(r)) is Some,
{
    SyntaxSet::load_defaults_newlines()
}

/// `ThemeSet::load_defaults` loads the themes that come with the highlighter,
/// in a map by their names. Which of them a name stands for has the name
/// `bundled_theme`.
#[verifier::external_body]
fn load_theme(name: &str) -> (r: Option<Theme>)
    ensures
        match r {
            Some(theme) => bundled_theme(name@) == Some(theme_rules(theme)),
            None => bundled_theme(name@) is None,
        },
{
    ThemeSet::load_defaults().themes.remove(name)
}

/// `ThemeSet::load_defaults` holds its themes in the order of their names; this
/// is the first of them, if there is any. Nothing is claimed of which it is.
#[verifier::external_body]
fn load_first_theme() -> (r: Option<Theme>) {
    ThemeSet::load_defaults().themes.into_values().next()
}

/// `Theme::default` gives a theme without rules of its own. Nothing is claimed
/// of it.
#[verifier::external_body]
fn default_theme() -> (r: Theme) {
    Theme::default()
}

/// `SyntaxSet::find_syntax_by_token` looks for a syntax by an extension, and
/// then by a name. What it finds depends on the set and the token alone.
#[verifier::external_body]
fn find_syntax_by_token<'a>(set: &'a SyntaxSet, token: &str) -> (r: Option<&'a SyntaxReference>)
    ensures
        found_at(
            r,
            syntax_definitions(*set),
            syntax_for_token(syntax_definitions(*set), token@),
        ),
{
    set.find_syntax_by_token(token)
}

/// `SyntaxSet::find_syntax_by_extension` looks for a syntax by an extension, or
/// by a whole file name. What it finds depends on the set and the extension
/// alone.
#[verifier::external_body]
fn find_syntax_by_extension<'a>(set: &'a SyntaxSet, extension: &str) -> (r: Option<
    &'a SyntaxReference,
>)
    ensures
        found_at(
            r,
            syntax_definitions(*set),
            syntax_for_extension(syntax_definitions(*set), extension@),
        ),
{
    set.find_syntax_by_extension(extension)
}

/// `SyntaxSet::find_syntax_by_first_line` looks for a syntax that the first line
/// of a file tells. What it finds depends on the set and the line alone.
#[verifier::external_body]
fn find_syntax_by_first_line<'a>(set: &'a SyntaxSet, line: &str) -> (r: Option<&'a SyntaxReference>)
    ensures
        found_at(
            r,
            syntax_definitions(*set),
            syntax_for_first_line(syntax_definitions(*set), line@),
        ),
{
    set.find_syntax_by_first_line(line)
}

/// `SyntaxSet::find_syntax_plain_text` gives the syntax without colours. It
/// panics on a set without one.
#[verifier::external_body]
fn find_plain_syntax<'a>(set: &'a SyntaxSet) -> (r: &'a SyntaxReference)
    requires
        plain_syntax(syntax_definitions(*set)) is Some,
    ensures
        found_at(
            Some(r),
            syntax_definitions(*set),
            plain_syntax(syntax_definitions(*set)),
        ),
{
    set.find_syntax_plain_text()
}

/// `HighlightLines::new` begins a text in a syntax with a theme.
#[verifier::external_body]
fn new_highlighter<'a>(syntax: &SyntaxReference, theme: &'a Theme) -> (r: HighlightLines<'a>)
    ensures
        highlighter_syntax(r) == syntax_place(*syntax),
        highlighter_theme(r) == theme_rules(*theme),
        highlighter_lines(r) == Seq::<Seq<char>>::empty(),
{
    HighlightLines::new(syntax, theme)
}

/// `HighlightLines::highlight_line` takes the next line and cuts it into pieces
/// with colours. It wants the set that the syntax belongs to. What comes out
/// depends on the syntax, the theme and the lines so far; after an error nothing
/// is claimed of the highlighter.
#[verifier::external_body]
fn style_line(highlighter: &mut HighlightLines<'_>, set: &SyntaxSet, line: &str) -> (r: Result<
    Vec<StyledText<String>>,
    String,
>)
    requires
        highlighter_syntax(*old(highlighter)).0 == syntax_definitions(*set),
    ensures
        pieces_result(r) == styled_line(
            highlighter_syntax(*old(highlighter)),
            highlighter_theme(*old(highlighter)),
            highlighter_lines(*old(highlighter)),
            line@,
        ),
        r is Ok ==> highlighter_syntax(*final(highlighter)) == highlighter_syntax(
            *old(highlighter),
        ),
        r is Ok ==> highlighter_theme(*final(highlighter)) == highlighter_theme(*old(highlighter)),
        r is Ok ==> highlighter_lines(*final(highlighter)) == highlighter_lines(
            *old(highlighter),
        ).push(line@),
{
    let pieces = highlighter.highlight_line(line, set).map_err(|fault| fault.to_string())?;
    Ok(pieces.into_iter().map(|(style, text)| {
        let (f, b) = (style.foreground, style.background);
        StyledText {
            foreground: Rgba { r: f.r, g: f.g, b: f.b, a: f.a },
            background: Rgba { r: b.r, g: b.g, b: b.b, a: b.a },
            text: text.to_string(),
        }
    }).collect())
}

/// A channel of a colour over another one, by its opacity.
pub open spec fn blended(front: u8, back: u8, opacity: u8) -> nat {
    if opacity == 255 {
        front as nat
    } else {
        ((front * opacity + back * (255 - opacity)) / 255) as nat
    }
}

/// A piece of a line as a terminal shows it: its colour, then its text.
pub open spec fn escaped_piece(piece: StyledText<Seq<char>>) -> Seq<char> {
    let (f, b) = (piece.foreground, piece.background);
    "\x1b[38;2;"@ + decimal(blended(f.r, b.r, f.a)) + ";"@ + decimal(blended(f.g, b.g, f.a)) + ";"@
        + decimal(blended(f.b, b.b, f.a)) + "m"@ + piece.text
}

/// `as_24_bit_terminal_escaped` writes pieces of text for a terminal, without
/// their backgrounds. Of one piece it writes the escape sequence of its colour,
/// as far as it is not opaque blended with its background, and its text.
#[verifier::external_body]
fn escape_piece(piece: &StyledText<String>) -> (r: String)
    ensures
        r@ == escaped_piece(piece@),
{
    let (f, b) = (piece.foreground, piece.background);
    let style = Style {
        foreground: Color { r: f.r, g: f.g, b: f.b, a: f.a },
        background: Color { r: b.r, g: b.g, b: b.b, a: b.a },
        font_style: FontStyle::empty(),
    };
    as_24_bit_terminal_escaped(&[(style, piece.text.as_str())], false)
}

/// The pieces of a line one after the other, as a terminal shows them.
pub open spec fn escaped_pieces(pieces: Seq<StyledText<Seq<char>>>) -> Seq<char>
    decreases pieces.len(),
{
    if pieces.len() == 0 {
        seq![]
    } else {
        escaped_pieces(pieces.drop_last()) + escaped_piece(pieces.last())
    }
}

/// Writes the pieces of a line for a terminal.
pub fn escape_pieces(pieces: &Vec<StyledText<String>>) -> (r: String)
    ensures
        r@ == escaped_pieces(piece_views(pieces@)),
{
    let mut r = String::new();
    let mut i: usize = 0;
    let ghost all = piece_views(pieces@);
    while i < pieces.len()
        invariant
            i <= pieces@.len(),
            all == piece_views(pieces@),
            r@ == escaped_pieces(all.take(i as int)),
        decreases pieces.len() - i,
    {
        assert(all.take(i + 1).drop_last() =~= all.take(i as int));
        let piece = escape_piece(&pieces[i]);
        r.append(piece.as_str());
        i += 1;
    }
    assert(all.take(pieces@.len() as int) =~= all);
    r
}

/// The syntaxes and the theme that source text is shown with.
pub struct SyntaxHighlightAssets {
    syntaxes: SyntaxSet,
    theme: Theme,
}

impl SyntaxHighlightAssets {
    /// There is a syntax for text without colours: every value of this type has
    /// one, which `highlight_file` falls back to.
    #[verifier::type_invariant]
    spec fn has_plain_syntax(&self) -> bool {
        plain_syntax(syntax_definitions(self.syntaxes)) is Some
    }

    /// The definitions of the syntaxes.
    pub closed spec fn definitions(&self) -> Seq<Seq<char>> {
        syntax_definitions(self.syntaxes)
    }

    /// The rules of the theme.
    pub closed spec fn theme(&self) -> Seq<Seq<char>> {
        theme_rules(self.theme)
    }
}

/// Loads the syntaxes and the theme that come with the highlighter. Where the
/// theme is missing, the first of the others serves, and without any a theme
/// without rules.
pub fn syntax_highlight_assets() -> (r: SyntaxHighlightAssets)
    ensures
        bundled_theme("base16-ocean.dark"@) matches Some(rules) ==> r.theme() == rules,
{
    let theme = match load_theme("base16-ocean.dark") {
        Some(theme) => theme,
        None => match load_first_theme() {
            Some(theme) => theme,
            None => default_theme(),
        },
    };
    SyntaxHighlightAssets { syntaxes: load_syntaxes(), theme }
}

/// The lines of a text with their endings.
pub open spec fn lines_with_endings(s: Seq<char>) -> Seq<Seq<char>>
    decreases s.len(),
    via lines_with_endings_decreases
{
    if s.len() == 0 {
        seq![]
    } else {
        let n = first_index(s, '\n');
        if n >= s.len() {
            seq![s]
        } else {
            seq![s.take(n + 1)] + lines_with_endings(s.skip(n + 1))
        }
    }
}

#[via_fn]
proof fn lines_with_endings_decreases(s: Seq<char>) {
    lemma_first_index_props(s, '\n');
}

/// Splits a text into its lines with their endings.
pub fn split_lines_with_endings(s: &str) -> (r: Vec<String>)
    ensures
        texts(r@) == lines_with_endings(s@),
{
    let x = chars_of(s);
    let mut r: Vec<String> = Vec::new();
    let mut start: usize = 0;
    let mut i: usize = 0;
    assert(s@.skip(0) =~= s@);
    assert(texts(r@) + lines_with_endings(s@) =~= lines_with_endings(s@));
    while i < x.len()
        invariant
            start <= i <= x@.len(),
            x@ == s@,
            forall|j: int| start <= j < i ==> x@[j] != '\n',
            texts(r@) + lines_with_endings(s@.skip(start as int)) == lines_with_endings(s@),
        decreases x.len() - i,
    {
        if x[i] == '\n' {
            let ghost rest = s@.skip(start as int);
            proof {
                lemma_first_index(rest, '\n', i - start);
                assert(rest.take(i - start + 1) =~= s@.subrange(start as int, i + 1));
                assert(rest.skip(i - start + 1) =~= s@.skip(i + 1));
            }
            let ghost before = r@;
            let line = string_of(&x, start, i + 1);
            r.push(line);
            proof {
                lemma_texts_push(before, line);
                assert(texts(r@) + lines_with_endings(s@.skip(i + 1)) =~= texts(before) + (
                seq![line@] + lines_with_endings(s@.skip(i + 1))));
            }
            start = i + 1;
        }
        i += 1;
    }
    let ghost rest = s@.skip(start as int);
    if start < x.len() {
        let ghost before = r@;
        let line = string_of(&x, start, x.len());
        r.push(line);
        proof {
            lemma_first_index(rest, '\n', rest.len() as int);
            lemma_texts_push(before, line);
            assert(rest =~= line@);
            assert(texts(r@) =~= texts(before) + seq![line@]);
        }
    } else {
        assert(rest =~= Seq::<char>::empty());
        assert(texts(r@) + Seq::<Seq<char>>::empty() =~= texts(r@));
    }
    r
}

/// Lines in colour, or the first fault: each by what comes before it.
pub open spec fn highlighted_lines(
    syntax: (Seq<Seq<char>>, int),
    theme: Seq<Seq<char>>,
    rows: Seq<Seq<char>>,
) -> Result<Seq<Seq<char>>, Seq<char>>
    decreases rows.len(),
{
    if rows.len() == 0 {
        Ok(seq![])
    } else {
        match highlighted_lines(syntax, theme, rows.drop_last()) {
            Ok(done) => match styled_line(syntax, theme, rows.drop_last(), rows.last()) {
                Ok(pieces) => Ok(done.push(escaped_pieces(pieces))),
                Err(fault) => Err(fault),
            },
            Err(fault) => Err(fault),
        }
    }
}

/// The view of a result that holds lines.
pub open spec fn lines_result(r: Result<Vec<String>, String>) -> Result<
    Seq<Seq<char>>,
    Seq<char>,
> {
    match r {
        Ok(v) => Ok(texts(v@)),
        Err(e) => Err(e@),
    }
}

proof fn lemma_fault_stays(
    syntax: (Seq<Seq<char>>, int),
    theme: Seq<Seq<char>>,
    rows: Seq<Seq<char>>,
    k: int,
)
    requires
        0 <= k <= rows.len(),
        highlighted_lines(syntax, theme, rows.take(k)) is Err,
    ensures
        highlighted_lines(syntax, theme, rows) == highlighted_lines(syntax, theme, rows.take(k)),
    decreases rows.len(),
{
    if k == rows.len() {
        assert(rows.take(k) =~= rows);
    } else {
        assert(rows.drop_last().take(k) =~= rows.take(k));
        lemma_fault_stays(syntax, theme, rows.drop_last(), k);
    }
}

fn highlight_rows(assets: &SyntaxHighlightAssets, syntax: &SyntaxReference, rows: &Vec<String>) -> (r:
    Result<Vec<String>, String>)
    requires
        syntax_place(*syntax).0 == assets.definitions(),
    ensures
        lines_result(r) == highlighted_lines(syntax_place(*syntax), assets.theme(), texts(rows@)),
{
    let mut highlighter = new_highlighter(syntax, &assets.theme);
    let mut r: Vec<String> = Vec::new();
    let mut i: usize = 0;
    let ghost all = texts(rows@);
    let ghost place = syntax_place(*syntax);
    let ghost theme = assets.theme();
    assert(all.take(0) =~= Seq::<Seq<char>>::empty());
    assert(texts(r@) =~= seq![]);
    while i < rows.len()
        invariant
            i <= rows@.len(),
            all == texts(rows@),
            place == syntax_place(*syntax),
            theme == assets.theme(),
            place.0 == syntax_definitions(assets.syntaxes),
            highlighter_syntax(highlighter) == place,
            highlighter_theme(highlighter) == theme,
            highlighter_lines(highlighter) == all.take(i as int),
            highlighted_lines(place, theme, all.take(i as int)) == Ok::<
                Seq<Seq<char>>,
                Seq<char>,
            >(texts(r@)),
        decreases rows.len() - i,
    {
        let ghost part = all.take(i + 1);
        assert(part.drop_last() =~= all.take(i as int));
        assert(part =~= all.take(i as int).push(all[i as int]));
        match style_line(&mut highlighter, &assets.syntaxes, rows[i].as_str()) {
            Ok(pieces) => {
                let ghost before = r@;
                let line = escape_pieces(&pieces);
                r.push(line);
                proof {
                    lemma_texts_push(before, line);
                }
            },
            Err(fault) => {
                proof {
                    lemma_fault_stays(place, theme, all, i + 1);
                }
                return Err(fault);
            },
        }
        i += 1;
    }
    assert(all.take(rows@.len() as int) =~= all);
    Ok(r)
}

/// The first of two positions that is there.
pub open spec fn either_position(a: Option<int>, b: Option<int>) -> Option<int> {
    match a {
        Some(i) => Some(i),
        None => b,
    }
}

/// The syntax that a language stands for in a code block.
pub open spec fn language_syntax(definitions: Seq<Seq<char>>, language: Option<Seq<char>>) -> Option<
    int,
> {
    match language {
        Some(name) => if trimmed(name).len() == 0 {
            None
        } else {
            either_position(
                syntax_for_token(definitions, trimmed(name)),
                syntax_for_extension(definitions, trimmed(name)),
            )
        },
        None => None,
    }
}

/// The syntax of a file: by its name, by its extension, or by its first line.
pub open spec fn file_syntax(definitions: Seq<Seq<char>>, path: Seq<char>, content: Seq<char>) -> int {
    let name = match name_of_path(path) {
        Some(n) => n,
        None => Seq::empty(),
    };
    let by_name = either_position(
        syntax_for_extension(definitions, name),
        syntax_for_extension(definitions, extension_of(name)),
    );
    let rows = lines_with_endings(content);
    let first = if rows.len() == 0 {
        Seq::empty()
    } else {
        rows[0]
    };
    match either_position(by_name, syntax_for_first_line(definitions, first)) {
        Some(i) => i,
        None => plain_syntax(definitions).unwrap(),
    }
}

fn find_file_syntax<'a>(set: &'a SyntaxSet, path: &str, rows: &Vec<String>, Ghost(content): Ghost<
    Seq<char>,
>) -> (r: &'a SyntaxReference)
    requires
        texts(rows@) == lines_with_endings(content),
        plain_syntax(syntax_definitions(*set)) is Some,
    ensures
        syntax_place(*r) == (
            syntax_definitions(*set),
            file_syntax(syntax_definitions(*set), path@, content),
        ),
{
    let name = match file_name(path) {
        Some(n) => n,
        None => String::new(),
    };
    if let Some(syntax) = find_syntax_by_extension(set, name.as_str()) {
        return syntax;
    }
    let suffix = extension(name.as_str());
    if let Some(syntax) = find_syntax_by_extension(set, suffix.as_str()) {
        return syntax;
    }
    let first = if rows.len() == 0 {
        String::new()
    } else {
        assert(texts(rows@)[0] == rows@[0]@);
        rows[0].clone()
    };
    assert(texts(rows@).len() == rows@.len());
    if let Some(syntax) = find_syntax_by_first_line(set, first.as_str()) {
        return syntax;
    }
    find_plain_syntax(set)
}

/// The lines of a file in colour, with their endings.
pub fn highlight_file(assets: &SyntaxHighlightAssets, path: &str, content: &str) -> (r: Result<
    Vec<String>,
    String,
>)
    ensures
        lines_result(r) == highlighted_lines(
            (assets.definitions(), file_syntax(assets.definitions(), path@, content@)),
            assets.theme(),
            lines_with_endings(content@),
        ),
{
    proof {
        use_type_invariant(assets);
    }
    let rows = split_lines_with_endings(content);
    let syntax = find_file_syntax(&assets.syntaxes, path, &rows, Ghost(content@));
    highlight_rows(assets, syntax, &rows)
}

/// A line of code in the colour of code.
pub open spec fn plain_code_line(line: Seq<char>) -> Seq<char> {
    ANSI_FG_CODE@ + line + ANSI_FG_RESET@
}

/// Code without the colours of a language.
pub open spec fn plain_code(value: Seq<char>) -> Seq<Seq<char>> {
    if value.len() == 0 {
        seq![Seq::empty()]
    } else {
        lines_of(value).map_values(|l: Seq<char>| plain_code_line(l))
    }
}

/// The lines of code in the colour of code.
pub fn render_plain_code_lines(value: &str) -> (r: Vec<String>)
    ensures
        texts(r@) == plain_code(value@),
{
    let mut r: Vec<String> = Vec::new();
    if value.is_empty() {
        r.push(String::new());
        assert(texts(r@) =~= plain_code(value@));
        return r;
    }
    let rows = lines(value);
    let mut i: usize = 0;
    let ghost all = texts(rows@);
    while i < rows.len()
        invariant
            i <= rows@.len(),
            all == texts(rows@),
            texts(r@) == all.take(i as int).map_values(|l: Seq<char>| plain_code_line(l)),
        decreases rows.len() - i,
    {
        let mut line = String::new();
        line.append(ANSI_FG_CODE);
        line.append(rows[i].as_str());
        line.append(ANSI_FG_RESET);
        let ghost before = r@;
        r.push(line);
        proof {
            lemma_texts_push(before, line);
            assert(line@ =~= plain_code_line(all[i as int]));
            assert(all.take(i + 1) =~= all.take(i as int).push(all[i as int]));
            assert(texts(r@) =~= all.take(i + 1).map_values(|l: Seq<char>| plain_code_line(l)));
        }
        i += 1;
    }
    assert(all.take(rows@.len() as int) =~= all);
    r
}

/// Code as it is shown, given its lines in colour. Without a language, after a
/// fault, and where no lines are there, it is shown without colours.
pub open spec fn shown_code(
    highlighted: Option<Result<Seq<Seq<char>>, Seq<char>>>,
    value: Seq<char>,
) -> Seq<Seq<char>> {
    match highlighted {
        Some(Ok(rows)) => if rows.len() == 0 {
            plain_code(value)
        } else {
            rows.map_values(|l: Seq<char>| without_final_newlines(l))
        },
        _ => plain_code(value),
    }
}

/// Shows code, given its lines in colour.
pub fn show_code(highlighted: Option<Result<Vec<String>, String>>, value: &str) -> (r: Vec<String>)
    ensures
        texts(r@) == shown_code(
            match highlighted {
                Some(h) => Some(lines_result(h)),
                None => None,
            },
            value@,
        ),
{
    if let Some(Ok(rows)) = highlighted {
        assert(texts(rows@).len() == rows@.len());
        if rows.len() == 0 {
            return render_plain_code_lines(value);
        }
        let mut r: Vec<String> = Vec::new();
        let mut i: usize = 0;
        let ghost all = texts(rows@);
        while i < rows.len()
            invariant
                i <= rows@.len(),
                all == texts(rows@),
                texts(r@) == all.take(i as int).map_values(
                    |l: Seq<char>| without_final_newlines(l),
                ),
            decreases rows.len() - i,
        {
            let line = trim_final_newlines(rows[i].as_str()).to_string();
            let ghost before = r@;
            r.push(line);
            proof {
                lemma_texts_push(before, line);
                assert(all.take(i + 1) =~= all.take(i as int).push(all[i as int]));
                assert(texts(r@) =~= all.take(i + 1).map_values(
                    |l: Seq<char>| without_final_newlines(l),
                ));
            }
            i += 1;
        }
        assert(all.take(rows@.len() as int) =~= all);
        return r;
    }
    render_plain_code_lines(value)
}

/// The lines of code in the colours of its language, if that is known.
pub open spec fn code_in_color(
    definitions: Seq<Seq<char>>,
    theme: Seq<Seq<char>>,
    language: Option<Seq<char>>,
    value: Seq<char>,
) -> Option<Result<Seq<Seq<char>>, Seq<char>>> {
    match language_syntax(definitions, language) {
        Some(i) => Some(highlighted_lines((definitions, i), theme, lines_with_endings(value))),
        None => None,
    }
}

/// Shows code in the colours of its language.
pub fn render_syntax_highlighted_code(
    assets: &SyntaxHighlightAssets,
    language: Option<&str>,
    value: &str,
) -> (r: Vec<String>)
    ensures
        texts(r@) == shown_code(
            code_in_color(
                assets.definitions(),
                assets.theme(),
                match language {
                    Some(l) => Some(l@),
                    None => None,
                },
                value@,
            ),
            value@,
        ),
{
    if let Some(name) = language {
        let token = trim(name);
        if !token.is_empty() {
            let found = match find_syntax_by_token(&assets.syntaxes, token) {
                Some(syntax) => Some(syntax),
                None => find_syntax_by_extension(&assets.syntaxes, token),
            };
            if let Some(syntax) = found {
                let rows = split_lines_with_endings(value);
                return show_code(Some(highlight_rows(assets, syntax, &rows)), value);
            }
        }
    }
    show_code(None, value)
}

} // verus!
