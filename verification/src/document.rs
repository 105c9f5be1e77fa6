//! Markdown as a terminal shows it.
use vstd::prelude::*;
use vstd::string::*;

use crate::ansi::{
    ANSI_BOLD_OFF, ANSI_BOLD_ON, ANSI_FG_CODE, ANSI_FG_LINK, ANSI_FG_RESET, ANSI_FG_SUBTLE,
    ANSI_ITALIC_OFF, ANSI_ITALIC_ON, ANSI_STRIKETHROUGH_OFF, ANSI_STRIKETHROUGH_ON,
    ANSI_UNDERLINE_OFF, ANSI_UNDERLINE_ON,
};
use crate::highlight::{
    code_in_color, render_syntax_highlighted_code, shown_code, SyntaxHighlightAssets,
};
use crate::number::{decimal, format_u128};
use crate::text::{
    concat3, join, joined, lemma_texts_push, lines, lines_of, opt_text, str_eq, texts, trim, trimmed,
};
use markdown::mdast::Node;

verus! {

/// Declares a node of a parsed document.
#[verifier::external_type_specification]
#[verifier::external_body]
pub struct ExNode(markdown::mdast::Node);

/// The nodes that only hold other nodes.
#[derive(Clone, Copy, Debug, PartialEq, Eq, Structural)]
pub enum MdNest {
    Root,
    Blockquote,
    Paragraph,
    Strong,
    Emphasis,
    Delete,
    LinkReference,
    Table,
    TableRow,
    TableCell,
    FootnoteDefinition,
    JsxFlowElement,
    JsxTextElement,
}

/// The nodes that only hold a text.
#[derive(Clone, Copy, Debug, PartialEq, Eq, Structural)]
pub enum MdLiteral {
    Text,
    Html,
    Math,
    InlineCode,
    InlineMath,
    FlowExpression,
    TextExpression,
    Esm,
    Toml,
    Yaml,
    ImageReference,
    FootnoteReference,
}

/// The nodes that hold nothing.
#[derive(Clone, Copy, Debug, PartialEq, Eq, Structural)]
pub enum MdMark {
    Break,
    ThematicBreak,
    Definition,
}

/// A node of a document.
pub enum MdNode {
    Nest(MdNest, Vec<MdNode>),
    Literal(MdLiteral, String),
    Mark(MdMark),
    /// Holds the depth.
    Heading(u8, Vec<MdNode>),
    /// Holds the first number of an ordered list.
    List(bool, Option<u32>, Vec<MdNode>),
    /// Tells whether the parts of the item are set apart.
    ListItem(bool, Vec<MdNode>),
    /// Holds the target.
    Link(String, Vec<MdNode>),
    /// Holds the description and the target.
    Image(String, String),
    /// Holds the language.
    Code(Option<String>, String),
}

/// A node of a document, as contracts speak of it.
pub enum MdTree {
    Nest(MdNest, Seq<MdTree>),
    Literal(MdLiteral, Seq<char>),
    Mark(MdMark),
    Heading(u8, Seq<MdTree>),
    List(bool, Option<u32>, Seq<MdTree>),
    ListItem(bool, Seq<MdTree>),
    Link(Seq<char>, Seq<MdTree>),
    Image(Seq<char>, Seq<char>),
    Code(Option<Seq<char>>, Seq<char>),
}

/// A node as contracts speak of it.
pub open spec fn tree(node: MdNode) -> MdTree
    decreases node,
{
    match node {
        MdNode::Nest(kind, children) => MdTree::Nest(kind, trees(children@)),
        MdNode::Literal(kind, text) => MdTree::Literal(kind, text@),
        MdNode::Mark(kind) => MdTree::Mark(kind),
        MdNode::Heading(depth, children) => MdTree::Heading(depth, trees(children@)),
        MdNode::List(ordered, start, children) => MdTree::List(ordered, start, trees(children@)),
        MdNode::ListItem(spread, children) => MdTree::ListItem(spread, trees(children@)),
        MdNode::Link(url, children) => MdTree::Link(url@, trees(children@)),
        MdNode::Image(alt, url) => MdTree::Image(alt@, url@),
        MdNode::Code(lang, value) => MdTree::Code(opt_text(lang), value@),
    }
}

/// Nodes as contracts speak of them.
pub open spec fn trees(nodes: Seq<MdNode>) -> Seq<MdTree>
    decreases nodes,
{
    if nodes.len() == 0 {
        seq![]
    } else {
        trees(nodes.drop_last()).push(tree(nodes.last()))
    }
}

pub proof fn lemma_trees(nodes: Seq<MdNode>)
    ensures
        trees(nodes).len() == nodes.len(),
        forall|i: int| 0 <= i < nodes.len() ==> #[trigger] trees(nodes)[i] == tree(nodes[i]),
    decreases nodes.len(),
{
    if nodes.len() > 0 {
        lemma_trees(nodes.drop_last());
        assert forall|i: int| 0 <= i < nodes.len() implies #[trigger] trees(nodes)[i] == tree(
            nodes[i],
        ) by {
            if i < nodes.len() - 1 {
                assert(trees(nodes.drop_last())[i] == tree(nodes.drop_last()[i]));
            }
        }
    }
}

/// Whether a node can be shown: rows stand in tables, cells in rows, and no
/// node is of a kind that has no form on a terminal.
pub open spec fn renderable(t: MdTree) -> bool
    decreases t,
{
    match t {
        MdTree::Nest(MdNest::FootnoteDefinition, _) => false,
        MdTree::Nest(MdNest::JsxFlowElement, _) => false,
        MdTree::Nest(MdNest::JsxTextElement, _) => false,
        MdTree::Nest(MdNest::TableRow, _) => false,
        MdTree::Nest(MdNest::TableCell, _) => false,
        MdTree::Nest(MdNest::Table, rows) => rows_renderable(rows),
        MdTree::Nest(_, children) => all_renderable(children),
        MdTree::Heading(_, children) => all_renderable(children),
        MdTree::List(_, _, children) => items_renderable(children),
        MdTree::ListItem(_, children) => all_renderable(children),
        MdTree::Link(_, children) => all_renderable(children),
        _ => true,
    }
}

/// Whether all nodes can be shown.
pub open spec fn all_renderable(s: Seq<MdTree>) -> bool
    decreases s,
{
    s.len() == 0 || (all_renderable(s.drop_last()) && renderable(s.last()))
}

/// Whether the items among the parts of a list can be shown.
pub open spec fn items_renderable(s: Seq<MdTree>) -> bool
    decreases s,
{
    s.len() == 0 || (items_renderable(s.drop_last()) && match s.last() {
        MdTree::ListItem(_, children) => all_renderable(children),
        _ => true,
    })
}

/// Whether the rows among the parts of a table can be shown.
pub open spec fn rows_renderable(s: Seq<MdTree>) -> bool
    decreases s,
{
    s.len() == 0 || (rows_renderable(s.drop_last()) && match s.last() {
        MdTree::Nest(MdNest::TableRow, cells) => cells_renderable(cells),
        _ => true,
    })
}

/// Whether the cells among the parts of a row can be shown.
pub open spec fn cells_renderable(s: Seq<MdTree>) -> bool
    decreases s,
{
    s.len() == 0 || (cells_renderable(s.drop_last()) && match s.last() {
        MdTree::Nest(MdNest::TableCell, children) => all_renderable(children),
        _ => true,
    })
}

/// What a node of a parsed document holds.
pub uninterp spec fn node_tree(node: Node) -> MdTree;

/// The document that a text stands for.
pub uninterp spec fn markdown_tree(text: Seq<char>) -> Option<MdTree>;

/// Takes nodes of `markdown::mdast` over, one for one. Only `md_node` and its
/// parts call it, so nothing is claimed of it by itself.
#[verifier::external_body]
fn md_nodes(nodes: Vec<Node>) -> (r: Vec<MdNode>) {
    nodes.into_iter().map(md_node).collect()
}

/// Takes a node of `markdown::mdast` over, with what it holds: each variant is
/// one variant here. What comes out has the name `node_tree`. The variants with
/// more than a text or other nodes stand here, and each of the four parts below
/// hands those it does not list on to the next, the last one back to this one.
#[verifier::external_body]
fn md_node(node: Node) -> (r: MdNode)
    ensures
        tree(r) == node_tree(node),
{
    match node {
        Node::Heading(n) => MdNode::Heading(n.depth, md_nodes(n.children)),
        Node::List(n) => MdNode::List(n.ordered, n.start, md_nodes(n.children)),
        Node::ListItem(n) => MdNode::ListItem(n.spread, md_nodes(n.children)),
        Node::Link(n) => MdNode::Link(n.url, md_nodes(n.children)),
        Node::Image(n) => MdNode::Image(n.alt, n.url),
        Node::Code(n) => MdNode::Code(n.lang, n.value),
        other => md_nest(other),
    }
}

/// A part of `md_node`: the nodes that hold other nodes.
#[verifier::external_body]
fn md_nest(node: Node) -> (r: MdNode) {
    let (kind, children) = match node {
        Node::Root(n) => (MdNest::Root, n.children),
        Node::Blockquote(n) => (MdNest::Blockquote, n.children),
        Node::Paragraph(n) => (MdNest::Paragraph, n.children),
        Node::Strong(n) => (MdNest::Strong, n.children),
        Node::Emphasis(n) => (MdNest::Emphasis, n.children),
        Node::Delete(n) => (MdNest::Delete, n.children),
        Node::LinkReference(n) => (MdNest::LinkReference, n.children),
        other => return md_table(other),
    };
    MdNode::Nest(kind, md_nodes(children))
}

/// A part of `md_node`: the nodes of tables, and those without a form on a
/// terminal.
#[verifier::external_body]
fn md_table(node: Node) -> (r: MdNode) {
    let (kind, children) = match node {
        Node::Table(n) => (MdNest::Table, n.children),
        Node::TableRow(n) => (MdNest::TableRow, n.children),
        Node::TableCell(n) => (MdNest::TableCell, n.children),
        Node::FootnoteDefinition(n) => (MdNest::FootnoteDefinition, n.children),
        Node::MdxJsxFlowElement(n) => (MdNest::JsxFlowElement, n.children),
        Node::MdxJsxTextElement(n) => (MdNest::JsxTextElement, n.children),
        other => return md_literal(other),
    };
    MdNode::Nest(kind, md_nodes(children))
}

/// A part of `md_node`: the nodes of common markdown that hold a text.
#[verifier::external_body]
fn md_literal(node: Node) -> (r: MdNode) {
    let (kind, text) = match node {
        Node::Text(n) => (MdLiteral::Text, n.value),
        Node::Html(n) => (MdLiteral::Html, n.value),
        Node::InlineCode(n) => (MdLiteral::InlineCode, n.value),
        Node::ImageReference(n) => (MdLiteral::ImageReference, n.alt),
        Node::FootnoteReference(n) => (MdLiteral::FootnoteReference, n.identifier),
        Node::Toml(n) => (MdLiteral::Toml, n.value),
        Node::Yaml(n) => (MdLiteral::Yaml, n.value),
        other => return md_extension(other),
    };
    MdNode::Literal(kind, text)
}

/// A part of `md_node`: the nodes of extensions that hold a text, and those that
/// hold nothing.
#[verifier::external_body]
fn md_extension(node: Node) -> (r: MdNode) {
    let (kind, text) = match node {
        Node::Math(n) => (MdLiteral::Math, n.value),
        Node::InlineMath(n) => (MdLiteral::InlineMath, n.value),
        Node::MdxFlowExpression(n) => (MdLiteral::FlowExpression, n.value),
        Node::MdxTextExpression(n) => (MdLiteral::TextExpression, n.value),
        Node::MdxjsEsm(n) => (MdLiteral::Esm, n.value),
        Node::Break(_) => return MdNode::Mark(MdMark::Break),
        Node::ThematicBreak(_) => return MdNode::Mark(MdMark::ThematicBreak),
        Node::Definition(_) => return MdNode::Mark(MdMark::Definition),
        other => return md_node(other),
    };
    MdNode::Literal(kind, text)
}

/// `markdown::to_mdast` parses a text as common markdown. The document depends
/// on the text alone. Without extensions no node comes out that has no form on
/// a terminal.
#[verifier::external_body]
fn parse_markdown(text: &str) -> (r: Option<Node>)
    ensures
        match r {
            Some(node) => markdown_tree(text@) == Some(node_tree(node)) && renderable(
                node_tree(node),
            ),
            None => markdown_tree(text@) is None,
        },
{
    markdown::to_mdast(text, &markdown::ParseOptions::default()).ok()
}

/// A character several times.
pub open spec fn repeated(c: char, n: nat) -> Seq<char> {
    Seq::new(n, |i: int| c)
}

/// Writes a character several times.
pub fn repeat_char(c: char, n: usize) -> (r: String)
    ensures
        r@ == repeated(c, n as nat),
{
    let mut r = String::new();
    let mut i: usize = 0;
    while i < n
        invariant
            i <= n,
            r@ == repeated(c, i as nat),
        decreases n - i,
    {
        r.push(c);
        i += 1;
        assert(r@ =~= repeated(c, i as nat));
    }
    r
}

/// The lines of a text with a prefix: one for the first line, another for the
/// rest.
pub open spec fn prefixed_lines(rows: Seq<Seq<char>>, first: Seq<char>, rest: Seq<char>) -> Seq<
    Seq<char>,
> {
    Seq::new(rows.len(), |i: int| (if i == 0 { first } else { rest }) + rows[i])
}

/// A text with a prefix before its first line and another before the rest.
pub open spec fn indented(text: Seq<char>, first: Seq<char>, rest: Seq<char>) -> Seq<char> {
    joined(prefixed_lines(lines_of(text), first, rest), "\n"@)
}

/// Puts a prefix before the first line of a text, and another before the rest.
pub fn indent_lines(text: &str, first_prefix: &str, rest_prefix: &str) -> (r: String)
    ensures
        r@ == indented(text@, first_prefix@, rest_prefix@),
{
    let rows = lines(text);
    let mut out: Vec<String> = Vec::new();
    let mut i: usize = 0;
    let ghost all = texts(rows@);
    while i < rows.len()
        invariant
            i <= rows@.len(),
            all == texts(rows@),
            texts(out@) == prefixed_lines(all, first_prefix@, rest_prefix@).take(i as int),
        decreases rows.len() - i,
    {
        let mut line = String::new();
        line.append(
            if i == 0 {
                first_prefix
            } else {
                rest_prefix
            },
        );
        line.append(rows[i].as_str());
        let ghost before = out@;
        out.push(line);
        proof {
            lemma_texts_push(before, line);
            let want = prefixed_lines(all, first_prefix@, rest_prefix@);
            assert(line@ =~= want[i as int]);
            assert(texts(out@) =~= want.take(i + 1));
        }
        i += 1;
    }
    proof {
        let want = prefixed_lines(all, first_prefix@, rest_prefix@);
        assert(want.take(rows@.len() as int) =~= want);
    }
    join(&out, "\n")
}

/// Puts a prefix before each line of a text.
pub fn prefix_lines(text: &str, prefix: &str) -> (r: String)
    ensures
        r@ == indented(text@, prefix@, prefix@),
{
    indent_lines(text, prefix, prefix)
}

/// A link: its label, and its target where the label is another text.
pub open spec fn rendered_link(label: Seq<char>, url: Seq<char>) -> Seq<char> {
    if label.len() == 0 || label == url {
        ANSI_FG_LINK@ + ANSI_UNDERLINE_ON@ + url + ANSI_UNDERLINE_OFF@ + ANSI_FG_RESET@
    } else {
        ANSI_FG_LINK@ + ANSI_UNDERLINE_ON@ + label + ANSI_UNDERLINE_OFF@ + ANSI_FG_RESET@
            + ANSI_FG_SUBTLE@ + " ("@ + url + ")"@ + ANSI_FG_RESET@
    }
}

/// Writes a link.
pub fn render_link(label: &str, url: &str) -> (r: String)
    ensures
        r@ == rendered_link(label@, url@),
{
    let bare = label.is_empty() || str_eq(label, url);
    let mut r = String::new();
    r.append(ANSI_FG_LINK);
    r.append(ANSI_UNDERLINE_ON);
    r.append(
        if bare {
            url
        } else {
            label
        },
    );
    r.append(ANSI_UNDERLINE_OFF);
    r.append(ANSI_FG_RESET);
    if !bare {
        r.append(ANSI_FG_SUBTLE);
        r.append(" (");
        r.append(url);
        r.append(")");
        r.append(ANSI_FG_RESET);
    }
    assert(r@ =~= rendered_link(label@, url@));
    r
}

/// The line that opens a code block.
pub open spec fn code_opener(language: Option<Seq<char>>) -> Seq<char> {
    match language {
        Some(name) => "```"@ + name,
        None => "```"@,
    }
}

/// A code block: its opening line, the code, and its closing line.
pub open spec fn framed_code(language: Option<Seq<char>>, rows: Seq<Seq<char>>) -> Seq<char> {
    joined(
        seq![ANSI_FG_CODE@ + code_opener(language) + ANSI_FG_RESET@] + rows + seq![
            ANSI_FG_CODE@ + "```"@ + ANSI_FG_RESET@,
        ],
        "\n"@,
    )
}

/// The syntaxes and the theme that code is shown with.
pub struct Palette {
    pub definitions: Seq<Seq<char>>,
    pub theme: Seq<Seq<char>>,
}

/// The syntaxes and the theme of the assets.
pub open spec fn palette(assets: SyntaxHighlightAssets) -> Palette {
    Palette { definitions: assets.definitions(), theme: assets.theme() }
}

/// A code block in colour.
pub open spec fn rendered_code(p: Palette, language: Option<Seq<char>>, value: Seq<char>) -> Seq<
    char,
> {
    framed_code(
        language,
        if value.len() == 0 {
            seq![Seq::empty()]
        } else {
            shown_code(code_in_color(p.definitions, p.theme, language, value), value)
        },
    )
}

/// Frames the lines of a code block.
pub fn frame_code(language: Option<&str>, rows: Vec<String>) -> (r: String)
    ensures
        r@ == framed_code(
            match language {
                Some(l) => Some(l@),
                None => None,
            },
            texts(rows@),
        ),
{
    let mut opener = String::new();
    opener.append(ANSI_FG_CODE);
    opener.append("```");
    if let Some(name) = language {
        opener.append(name);
    }
    opener.append(ANSI_FG_RESET);
    let mut closer = String::new();
    closer.append(ANSI_FG_CODE);
    closer.append("```");
    closer.append(ANSI_FG_RESET);
    let mut out: Vec<String> = Vec::new();
    out.push(opener);
    let mut rows = rows;
    let ghost middle = texts(rows@);
    out.append(&mut rows);
    out.push(closer);
    proof {
        let language_text = match language {
            Some(l) => Some(l@),
            None => None,
        };
        assert(opener@ =~= ANSI_FG_CODE@ + code_opener(language_text) + ANSI_FG_RESET@);
        assert(texts(out@) =~= seq![opener@] + middle + seq![closer@]);
    }
    join(&out, "\n")
}

/// Writes a code block.
pub fn render_code_block(assets: &SyntaxHighlightAssets, language: Option<&str>, value: &str) -> (r:
    String)
    ensures
        r@ == rendered_code(
            palette(*assets),
            match language {
                Some(l) => Some(l@),
                None => None,
            },
            value@,
        ),
{
    if value.is_empty() {
        let mut rows: Vec<String> = Vec::new();
        rows.push(String::new());
        assert(texts(rows@) =~= seq![Seq::empty()]);
        return frame_code(language, rows);
    }
    frame_code(language, render_syntax_highlighted_code(assets, language, value))
}

/// A text that stands alone in a node.
pub open spec fn rendered_literal(kind: MdLiteral, text: Seq<char>) -> Seq<char> {
    match kind {
        MdLiteral::InlineCode => ANSI_FG_CODE@ + "`"@ + text + ANSI_FG_RESET@ + "`"@,
        MdLiteral::InlineMath => ANSI_FG_CODE@ + "$"@ + text + ANSI_FG_RESET@ + "$"@,
        MdLiteral::ImageReference => "[image: "@ + text + "]"@,
        MdLiteral::FootnoteReference => "[^"@ + text + "]"@,
        _ => text,
    }
}

fn render_literal(kind: MdLiteral, text: &str) -> (r: String)
    ensures
        r@ == rendered_literal(kind, text@),
{
    match kind {
        MdLiteral::InlineCode => {
            let mut r = concat3(ANSI_FG_CODE, "`", text);
            r.append(ANSI_FG_RESET);
            r.append("`");
            r
        },
        MdLiteral::InlineMath => {
            let mut r = concat3(ANSI_FG_CODE, "$", text);
            r.append(ANSI_FG_RESET);
            r.append("$");
            r
        },
        MdLiteral::ImageReference => concat3("[image: ", text, "]"),
        MdLiteral::FootnoteReference => concat3("[^", text, "]"),
        _ => text.to_string(),
    }
}

/// A node as a terminal shows it.
pub open spec fn rendered(p: Palette, t: MdTree) -> Seq<char>
    decreases t, 0int,
{
    match t {
        MdTree::Nest(MdNest::Root, children) => rendered_blocks(p, children, "\n\n"@),
        MdTree::Nest(MdNest::Blockquote, children) => indented(
            rendered_blocks(p, children, "\n\n"@),
            "> "@,
            "> "@,
        ),
        MdTree::Nest(MdNest::Strong, children) => ANSI_BOLD_ON@ + rendered_inline(p, children)
            + ANSI_BOLD_OFF@,
        MdTree::Nest(MdNest::Emphasis, children) => ANSI_ITALIC_ON@ + rendered_inline(p, children)
            + ANSI_ITALIC_OFF@,
        MdTree::Nest(MdNest::Delete, children) => ANSI_STRIKETHROUGH_ON@ + rendered_inline(
            p,
            children,
        ) + ANSI_STRIKETHROUGH_OFF@,
        MdTree::Nest(MdNest::Table, rows) => framed_table(rendered_rows(p, rows)),
        MdTree::Nest(_, children) => rendered_inline(p, children),
        MdTree::Literal(kind, text) => rendered_literal(kind, text),
        MdTree::Mark(MdMark::Break) => "\n"@,
        MdTree::Mark(MdMark::ThematicBreak) => repeated('-', 40),
        MdTree::Mark(MdMark::Definition) => Seq::empty(),
        MdTree::Heading(depth, children) => ANSI_BOLD_ON@ + repeated('#', depth as nat) + " "@
            + rendered_inline(p, children) + ANSI_BOLD_OFF@,
        MdTree::List(ordered, start, children) => joined(
            rendered_items(
                p,
                children,
                ordered,
                match start {
                    Some(n) => n as nat,
                    None => 1,
                },
            ),
            "\n"@,
        ),
        MdTree::ListItem(spread, children) => item_text(
            rendered_blocks(p, children, item_separator(spread)),
            "-"@,
        ),
        MdTree::Link(url, children) => rendered_link(rendered_inline(p, children), url),
        MdTree::Image(alt, url) => "[image: "@ + alt + "] ("@ + url + ")"@,
        MdTree::Code(lang, value) => rendered_code(p, lang, value),
    }
}

/// Nodes one after the other.
pub open spec fn rendered_inline(p: Palette, s: Seq<MdTree>) -> Seq<char>
    decreases s, 0int,
{
    if s.len() == 0 {
        seq![]
    } else {
        rendered_inline(p, s.drop_last()) + rendered(p, s.last())
    }
}

/// The blocks of a document that show something.
pub open spec fn shown_blocks(p: Palette, s: Seq<MdTree>) -> Seq<Seq<char>>
    decreases s, 0int,
{
    if s.len() == 0 {
        seq![]
    } else {
        let rest = shown_blocks(p, s.drop_last());
        let block = rendered(p, s.last());
        if trimmed(block).len() == 0 {
            rest
        } else {
            rest.push(block)
        }
    }
}

/// Blocks with a separator between neighbours.
pub open spec fn rendered_blocks(p: Palette, s: Seq<MdTree>, separator: Seq<char>) -> Seq<char>
    decreases s, 1int,
{
    joined(shown_blocks(p, s), separator)
}

/// What stands between the parts of an item.
pub open spec fn item_separator(spread: bool) -> Seq<char> {
    if spread {
        "\n\n"@
    } else {
        "\n"@
    }
}

/// An item behind its marker, with its further lines below its first.
pub open spec fn item_text(body: Seq<char>, marker: Seq<char>) -> Seq<char> {
    indented(body, marker + " "@, repeated(' ', (marker.len() + 1) as nat))
}

/// The marker of an item.
pub open spec fn item_marker(ordered: bool, number: nat) -> Seq<char> {
    if ordered {
        decimal(number) + "."@
    } else {
        "-"@
    }
}

/// The items of a list, numbered from `start`.
pub open spec fn rendered_items(p: Palette, s: Seq<MdTree>, ordered: bool, start: nat) -> Seq<
    Seq<char>,
>
    decreases s, 0int,
{
    if s.len() == 0 {
        seq![]
    } else {
        let rest = rendered_items(p, s.drop_last(), ordered, start);
        match s.last() {
            MdTree::ListItem(spread, children) => rest.push(
                item_text(
                    rendered_blocks(p, children, item_separator(spread)),
                    item_marker(ordered, (start + s.len() - 1) as nat),
                ),
            ),
            _ => rest,
        }
    }
}

/// The cells of a row.
pub open spec fn rendered_cells(p: Palette, s: Seq<MdTree>) -> Seq<Seq<char>>
    decreases s, 0int,
{
    if s.len() == 0 {
        seq![]
    } else {
        let rest = rendered_cells(p, s.drop_last());
        match s.last() {
            MdTree::Nest(MdNest::TableCell, children) => rest.push(rendered_inline(p, children)),
            _ => rest,
        }
    }
}

/// The rows of a table.
pub open spec fn rendered_rows(p: Palette, s: Seq<MdTree>) -> Seq<Seq<Seq<char>>>
    decreases s, 0int,
{
    if s.len() == 0 {
        seq![]
    } else {
        let rest = rendered_rows(p, s.drop_last());
        match s.last() {
            MdTree::Nest(MdNest::TableRow, cells) => rest.push(rendered_cells(p, cells)),
            _ => rest,
        }
    }
}

/// A row with bars around its cells.
pub open spec fn framed_row(cells: Seq<Seq<char>>) -> Seq<char> {
    "| "@ + joined(cells, " | "@) + " |"@
}

/// The line below the first row.
pub open spec fn ruler(cells: Seq<Seq<char>>) -> Seq<char> {
    framed_row(Seq::new(cells.len(), |i: int| "---"@))
}

/// The lines of a table: the first row, a ruler, and the other rows.
pub open spec fn table_lines(rows: Seq<Seq<Seq<char>>>) -> Seq<Seq<char>>
    decreases rows.len(),
{
    if rows.len() == 0 {
        seq![]
    } else if rows.len() == 1 {
        seq![framed_row(rows[0]), ruler(rows[0])]
    } else {
        table_lines(rows.drop_last()).push(framed_row(rows.last()))
    }
}

/// A table.
pub open spec fn framed_table(rows: Seq<Seq<Seq<char>>>) -> Seq<char> {
    joined(table_lines(rows), "\n"@)
}

fn frame_row(cells: &Vec<String>) -> (r: String)
    ensures
        r@ == framed_row(texts(cells@)),
{
    let middle = join(cells, " | ");
    concat3("| ", middle.as_str(), " |")
}

fn draw_ruler(count: usize) -> (r: String)
    ensures
        r@ == framed_row(Seq::new(count as nat, |i: int| "---"@)),
{
    let mut marks: Vec<String> = Vec::new();
    let mut i: usize = 0;
    while i < count
        invariant
            i <= count,
            texts(marks@) == Seq::new(i as nat, |i: int| "---"@),
        decreases count - i,
    {
        let ghost before = marks@;
        let mark = "---".to_string();
        marks.push(mark);
        proof {
            lemma_texts_push(before, mark);
        }
        i += 1;
        assert(texts(marks@) =~= Seq::new(i as nat, |i: int| "---"@));
    }
    frame_row(&marks)
}

/// Lists of lists of texts.
pub open spec fn row_texts(rows: Seq<Vec<String>>) -> Seq<Seq<Seq<char>>> {
    rows.map_values(|r: Vec<String>| texts(r@))
}

/// Writes a table out of its rows of cells.
pub fn frame_table(rows: &Vec<Vec<String>>) -> (r: String)
    ensures
        r@ == framed_table(row_texts(rows@)),
{
    let mut out: Vec<String> = Vec::new();
    let mut i: usize = 0;
    let ghost all = row_texts(rows@);
    assert(texts(out@) =~= table_lines(all.take(0)));
    while i < rows.len()
        invariant
            i <= rows@.len(),
            all == row_texts(rows@),
            texts(out@) == table_lines(all.take(i as int)),
        decreases rows.len() - i,
    {
        let ghost part = all.take(i + 1);
        assert(part.drop_last() =~= all.take(i as int));
        let ghost before = out@;
        let row = frame_row(&rows[i]);
        assert(all[i as int] == texts(rows@[i as int]@));
        out.push(row);
        proof {
            lemma_texts_push(before, row);
        }
        if i == 0 {
            let ghost between = out@;
            let line = draw_ruler(rows[i].len());
            out.push(line);
            proof {
                lemma_texts_push(between, line);
                assert(line@ == ruler(all[0]));
                assert(texts(out@) =~= seq![framed_row(all[0]), ruler(all[0])]);
            }
        }
        i += 1;
    }
    assert(all.take(rows@.len() as int) =~= all);
    join(&out, "\n")
}

proof fn lemma_renderable_at(s: Seq<MdTree>, i: int)
    requires
        0 <= i < s.len(),
    ensures
        all_renderable(s) ==> renderable(s[i]),
        items_renderable(s) ==> (s[i] matches MdTree::ListItem(_, children) ==> all_renderable(
            children,
        )),
        rows_renderable(s) ==> (s[i] matches MdTree::Nest(kind, cells) ==> kind
            == MdNest::TableRow ==> cells_renderable(cells)),
        cells_renderable(s) ==> (s[i] matches MdTree::Nest(kind, children) ==> kind
            == MdNest::TableCell ==> all_renderable(children)),
    decreases s.len(),
{
    if i < s.len() - 1 {
        lemma_renderable_at(s.drop_last(), i);
        assert(s.drop_last()[i] == s[i]);
    }
}

/// Writes nodes one after the other.
pub fn render_inline_nodes(assets: &SyntaxHighlightAssets, nodes: &Vec<MdNode>) -> (r: String)
    requires
        all_renderable(trees(nodes@)),
    ensures
        r@ == rendered_inline(palette(*assets), trees(nodes@)),
    decreases nodes, 0int,
{
    let mut r = String::new();
    let mut i: usize = 0;
    let ghost all = trees(nodes@);
    let ghost p = palette(*assets);
    proof {
        lemma_trees(nodes@);
    }
    while i < nodes.len()
        invariant
            i <= nodes@.len(),
            all == trees(nodes@),
            all.len() == nodes@.len(),
            all_renderable(all),
            p == palette(*assets),
            forall|j: int| 0 <= j < nodes@.len() ==> #[trigger] all[j] == tree(nodes@[j]),
            r@ == rendered_inline(p, all.take(i as int)),
        decreases nodes.len() - i,
    {
        proof {
            lemma_renderable_at(all, i as int);
            assert(all.take(i + 1).drop_last() =~= all.take(i as int));
            assert(all.take(i + 1).last() == all[i as int]);
        }
        let text = render_markdown_node(assets, &nodes[i]);
        r.append(text.as_str());
        i += 1;
    }
    assert(all.take(nodes@.len() as int) =~= all);
    r
}

/// Writes blocks with an empty line between them, or without it where they are
/// compact.
pub fn render_block_nodes(assets: &SyntaxHighlightAssets, nodes: &Vec<MdNode>, compact: bool) -> (r:
    String)
    requires
        all_renderable(trees(nodes@)),
    ensures
        r@ == rendered_blocks(palette(*assets), trees(nodes@), item_separator(!compact)),
    decreases nodes, 0int,
{
    let mut blocks: Vec<String> = Vec::new();
    let mut i: usize = 0;
    let ghost all = trees(nodes@);
    let ghost p = palette(*assets);
    proof {
        lemma_trees(nodes@);
    }
    assert(texts(blocks@) =~= shown_blocks(p, all.take(0)));
    while i < nodes.len()
        invariant
            i <= nodes@.len(),
            all == trees(nodes@),
            all.len() == nodes@.len(),
            all_renderable(all),
            p == palette(*assets),
            forall|j: int| 0 <= j < nodes@.len() ==> #[trigger] all[j] == tree(nodes@[j]),
            texts(blocks@) == shown_blocks(p, all.take(i as int)),
        decreases nodes.len() - i,
    {
        proof {
            lemma_renderable_at(all, i as int);
            assert(all.take(i + 1).drop_last() =~= all.take(i as int));
            assert(all.take(i + 1).last() == all[i as int]);
        }
        let text = render_markdown_node(assets, &nodes[i]);
        if !trim(text.as_str()).is_empty() {
            let ghost before = blocks@;
            blocks.push(text);
            proof {
                lemma_texts_push(before, text);
            }
        }
        i += 1;
    }
    assert(all.take(nodes@.len() as int) =~= all);
    let separator = if compact {
        "\n"
    } else {
        "\n\n"
    };
    join(&blocks, separator)
}

/// Writes an item behind its marker.
pub fn render_list_item(
    assets: &SyntaxHighlightAssets,
    spread: bool,
    children: &Vec<MdNode>,
    marker: &str,
) -> (r: String)
    requires
        all_renderable(trees(children@)),
    ensures
        r@ == item_text(
            rendered_blocks(palette(*assets), trees(children@), item_separator(spread)),
            marker@,
        ),
    decreases children, 1int,
{
    let body = render_block_nodes(assets, children, !spread);
    let mut first = marker.to_string();
    first.append(" ");
    let mut rest = repeat_char(' ', marker.unicode_len());
    rest.push(' ');
    assert(rest@ =~= repeated(' ', (marker@.len() + 1) as nat));
    indent_lines(body.as_str(), first.as_str(), rest.as_str())
}

/// Writes the items of a list.
pub fn render_list(
    assets: &SyntaxHighlightAssets,
    ordered: bool,
    start: Option<u32>,
    children: &Vec<MdNode>,
) -> (r: String)
    requires
        items_renderable(trees(children@)),
    ensures
        r@ == joined(
            rendered_items(
                palette(*assets),
                trees(children@),
                ordered,
                match start {
                    Some(n) => n as nat,
                    None => 1,
                },
            ),
            "\n"@,
        ),
    decreases children, 0int,
{
    let first: u32 = match start {
        Some(n) => n,
        None => 1,
    };
    let mut items: Vec<String> = Vec::new();
    let mut i: usize = 0;
    let ghost all = trees(children@);
    let ghost p = palette(*assets);
    proof {
        lemma_trees(children@);
    }
    assert(texts(items@) =~= rendered_items(p, all.take(0), ordered, first as nat));
    while i < children.len()
        invariant
            i <= children@.len(),
            all == trees(children@),
            all.len() == children@.len(),
            items_renderable(all),
            p == palette(*assets),
            forall|j: int| 0 <= j < children@.len() ==> #[trigger] all[j] == tree(children@[j]),
            texts(items@) == rendered_items(p, all.take(i as int), ordered, first as nat),
        decreases children.len() - i,
    {
        proof {
            lemma_renderable_at(all, i as int);
            assert(all.take(i + 1).drop_last() =~= all.take(i as int));
            assert(all.take(i + 1).last() == all[i as int]);
        }
        if let MdNode::ListItem(spread, parts) = &children[i] {
            let marker = if ordered {
                let mut number = format_u128(first as u128 + i as u128);
                number.append(".");
                number
            } else {
                "-".to_string()
            };
            let item = render_list_item(assets, *spread, parts, marker.as_str());
            let ghost before = items@;
            items.push(item);
            proof {
                lemma_texts_push(before, item);
            }
        }
        i += 1;
    }
    assert(all.take(children@.len() as int) =~= all);
    join(&items, "\n")
}

fn render_cells(assets: &SyntaxHighlightAssets, children: &Vec<MdNode>) -> (r: Vec<String>)
    requires
        cells_renderable(trees(children@)),
    ensures
        texts(r@) == rendered_cells(palette(*assets), trees(children@)),
    decreases children, 0int,
{
    let mut cells: Vec<String> = Vec::new();
    let mut i: usize = 0;
    let ghost all = trees(children@);
    let ghost p = palette(*assets);
    proof {
        lemma_trees(children@);
    }
    assert(texts(cells@) =~= rendered_cells(p, all.take(0)));
    while i < children.len()
        invariant
            i <= children@.len(),
            all == trees(children@),
            all.len() == children@.len(),
            cells_renderable(all),
            p == palette(*assets),
            forall|j: int| 0 <= j < children@.len() ==> #[trigger] all[j] == tree(children@[j]),
            texts(cells@) == rendered_cells(p, all.take(i as int)),
        decreases children.len() - i,
    {
        proof {
            lemma_renderable_at(all, i as int);
            assert(all.take(i + 1).drop_last() =~= all.take(i as int));
            assert(all.take(i + 1).last() == all[i as int]);
        }
        if let MdNode::Nest(MdNest::TableCell, parts) = &children[i] {
            let cell = render_inline_nodes(assets, parts);
            let ghost before = cells@;
            cells.push(cell);
            proof {
                lemma_texts_push(before, cell);
            }
        }
        i += 1;
    }
    assert(all.take(children@.len() as int) =~= all);
    cells
}

/// Writes a table.
pub fn render_table(assets: &SyntaxHighlightAssets, children: &Vec<MdNode>) -> (r: String)
    requires
        rows_renderable(trees(children@)),
    ensures
        r@ == framed_table(rendered_rows(palette(*assets), trees(children@))),
    decreases children, 0int,
{
    let mut rows: Vec<Vec<String>> = Vec::new();
    let mut i: usize = 0;
    let ghost all = trees(children@);
    let ghost p = palette(*assets);
    proof {
        lemma_trees(children@);
    }
    assert(row_texts(rows@) =~= rendered_rows(p, all.take(0)));
    while i < children.len()
        invariant
            i <= children@.len(),
            all == trees(children@),
            all.len() == children@.len(),
            rows_renderable(all),
            p == palette(*assets),
            forall|j: int| 0 <= j < children@.len() ==> #[trigger] all[j] == tree(children@[j]),
            row_texts(rows@) == rendered_rows(p, all.take(i as int)),
        decreases children.len() - i,
    {
        proof {
            lemma_renderable_at(all, i as int);
            assert(all.take(i + 1).drop_last() =~= all.take(i as int));
            assert(all.take(i + 1).last() == all[i as int]);
        }
        if let MdNode::Nest(MdNest::TableRow, parts) = &children[i] {
            let row = render_cells(assets, parts);
            let ghost before = rows@;
            rows.push(row);
            assert(row_texts(rows@) =~= row_texts(before).push(texts(row@)));
        }
        i += 1;
    }
    assert(all.take(children@.len() as int) =~= all);
    frame_table(&rows)
}

fn render_nest(assets: &SyntaxHighlightAssets, kind: MdNest, children: &Vec<MdNode>) -> (r: String)
    requires
        renderable(MdTree::Nest(kind, trees(children@))),
    ensures
        r@ == rendered(palette(*assets), MdTree::Nest(kind, trees(children@))),
    decreases children, 2int,
{
    match kind {
        MdNest::Root => render_block_nodes(assets, children, false),
        MdNest::Blockquote => {
            let body = render_block_nodes(assets, children, false);
            prefix_lines(body.as_str(), "> ")
        },
        MdNest::Strong => {
            let body = render_inline_nodes(assets, children);
            concat3(ANSI_BOLD_ON, body.as_str(), ANSI_BOLD_OFF)
        },
        MdNest::Emphasis => {
            let body = render_inline_nodes(assets, children);
            concat3(ANSI_ITALIC_ON, body.as_str(), ANSI_ITALIC_OFF)
        },
        MdNest::Delete => {
            let body = render_inline_nodes(assets, children);
            concat3(ANSI_STRIKETHROUGH_ON, body.as_str(), ANSI_STRIKETHROUGH_OFF)
        },
        MdNest::Table => render_table(assets, children),
        _ => render_inline_nodes(assets, children),
    }
}

/// Writes a node of a document.
pub fn render_markdown_node(assets: &SyntaxHighlightAssets, node: &MdNode) -> (r: String)
    requires
        renderable(tree(*node)),
    ensures
        r@ == rendered(palette(*assets), tree(*node)),
    decreases node, 0int,
{
    match node {
        MdNode::Nest(kind, children) => render_nest(assets, *kind, children),
        MdNode::Literal(kind, text) => render_literal(*kind, text.as_str()),
        MdNode::Mark(kind) => match kind {
            MdMark::Break => "\n".to_string(),
            MdMark::ThematicBreak => repeat_char('-', 40),
            MdMark::Definition => String::new(),
        },
        MdNode::Heading(depth, children) => {
            let marks = repeat_char('#', *depth as usize);
            let body = render_inline_nodes(assets, children);
            let mut r = concat3(ANSI_BOLD_ON, marks.as_str(), " ");
            r.append(body.as_str());
            r.append(ANSI_BOLD_OFF);
            r
        },
        MdNode::List(ordered, start, children) => render_list(assets, *ordered, *start, children),
        MdNode::ListItem(spread, children) => render_list_item(assets, *spread, children, "-"),
        MdNode::Link(url, children) => {
            let label = render_inline_nodes(assets, children);
            render_link(label.as_str(), url.as_str())
        },
        MdNode::Image(alt, url) => {
            let mut r = concat3("[image: ", alt.as_str(), "] (");
            r.append(url.as_str());
            r.append(")");
            r
        },
        MdNode::Code(lang, value) => {
            let language = match lang {
                Some(l) => Some(l.as_str()),
                None => None,
            };
            render_code_block(assets, language, value.as_str())
        },
    }
}

/// A text in markdown as a terminal shows it. A text that is no document is
/// shown as it is.
pub open spec fn console_text(p: Palette, text: Seq<char>, document: Option<MdTree>) -> Seq<char> {
    if text.len() == 0 {
        Seq::empty()
    } else {
        match document {
            Some(t) => rendered(p, t),
            None => text,
        }
    }
}

/// Writes a document for a terminal, given what its text was parsed into.
pub fn render_document(assets: &SyntaxHighlightAssets, text: &str, document: Option<MdNode>) -> (r:
    String)
    requires
        document matches Some(node) ==> renderable(tree(node)),
    ensures
        r@ == console_text(
            palette(*assets),
            text@,
            match document {
                Some(node) => Some(tree(node)),
                None => None,
            },
        ),
{
    if text.is_empty() {
        return String::new();
    }
    match document {
        Some(node) => render_markdown_node(assets, &node),
        None => text.to_string(),
    }
}

/// Writes a text in markdown for a terminal.
pub fn render_markdown_for_console(assets: &SyntaxHighlightAssets, text: &str) -> (r: String)
    ensures
        r@ == console_text(palette(*assets), text@, markdown_tree(text@)),
{
    if text.is_empty() {
        return String::new();
    }
    let document = match parse_markdown(text) {
        Some(node) => Some(md_node(node)),
        None => None,
    };
    render_document(assets, text, document)
}

} // verus!
