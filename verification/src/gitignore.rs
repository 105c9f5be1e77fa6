//! Which paths of a workspace a completion leaves out.
use vstd::prelude::*;
use vstd::string::*;
use vstd::utf8::*;

use crate::bytes::utf8_text;
use crate::text::{replace_backslashes, starts_with, str_eq, with_slashes};
use ignore::gitignore::{Gitignore, GitignoreBuilder};

verus! {

/// Declares the builder of ignore rules.
#[verifier::external_type_specification]
#[verifier::external_body]
pub struct ExGitignoreBuilder(ignore::gitignore::GitignoreBuilder);

/// Declares the matcher for ignore rules.
#[verifier::external_type_specification]
#[verifier::external_body]
pub struct ExGitignore(ignore::gitignore::Gitignore);

/// The lines that were handed to a builder, in order.
pub uninterp spec fn builder_lines(builder: GitignoreBuilder) -> Seq<Seq<char>>;

/// The lines that a matcher was built from, in order.
pub uninterp spec fn matcher_lines(matcher: Gitignore) -> Seq<Seq<char>>;

/// Whether a builder was begun at the root `.` and has the options that
/// `GitignoreBuilder::new` sets.
pub uninterp spec fn default_builder(builder: GitignoreBuilder) -> bool;

/// Whether a matcher was built by a builder with the root `.` and the options
/// that `GitignoreBuilder::new` sets.
pub uninterp spec fn default_matcher(matcher: Gitignore) -> bool;

/// Whether a matcher can be built from these lines.
pub uninterp spec fn rules_build(lines: Seq<Seq<char>>) -> bool;

/// Whether the rules in these lines ignore a path or one of its parents. The
/// path is relative to the directory of the rules.
pub uninterp spec fn path_ignored(lines: Seq<Seq<char>>, path: Seq<char>, is_dir: bool) -> bool;

/// `GitignoreBuilder::new` begins a set of rules without any line. The root `.`
/// makes the matcher take paths as they are, relative to the rules.
#[verifier::external_body]
pub(crate) fn new_rules() -> (r: GitignoreBuilder)
    ensures
        builder_lines(r) == Seq::<Seq<char>>::empty(),
        default_builder(r),
{
    GitignoreBuilder::new(".")
}

/// `GitignoreBuilder::add_line` takes one more line. A line that is no valid
/// rule is passed over, so the error is dropped.
#[verifier::external_body]
pub(crate) fn add_rule(builder: &mut GitignoreBuilder, line: &str)
    ensures
        builder_lines(*final(builder)) == builder_lines(*old(builder)).push(line@),
        default_builder(*final(builder)) == default_builder(*old(builder)),
{
    let _ = builder.add_line(None, line);
}

/// `GitignoreBuilder::build` makes a matcher out of the lines so far. It may
/// refuse them; without any line it never does.
#[verifier::external_body]
pub(crate) fn build_rules(builder: &GitignoreBuilder) -> (r: Option<Gitignore>)
    requires
        default_builder(*builder),
    ensures
        r is Some <==> rules_build(builder_lines(*builder)),
        builder_lines(*builder).len() == 0 ==> r is Some,
        r matches Some(matcher) ==> matcher_lines(matcher) == builder_lines(*builder)
            && default_matcher(matcher),
{
    builder.build().ok()
}

/// Whether a path is relative, behind a `./` that it may begin with.
pub open spec fn is_relative(path: Seq<char>) -> bool {
    let rest = if path.len() >= 2 && path[0] == '.' && path[1] == '/' {
        path.skip(2)
    } else {
        path
    };
    rest.len() == 0 || rest[0] != '/'
}

/// `Gitignore::matched_path_or_any_parents` looks a path up, and then each of
/// its parents. A matcher with the root `.` takes the path as it is, but for a
/// leading `./`, and panics where what is left has a root. Without any line
/// nothing is ignored.
#[verifier::external_body]
pub(crate) fn is_path_ignored(matcher: &Gitignore, path: &str, is_dir: bool) -> (r: bool)
    requires
        default_matcher(*matcher),
        is_relative(path@),
    ensures
        r == path_ignored(matcher_lines(*matcher), path@, is_dir),
        matcher_lines(*matcher).len() == 0 ==> !r,
{
    matcher.matched_path_or_any_parents(path, is_dir).is_ignore()
}

/// The ignore rules of a workspace.
pub struct IgnoreRules {
    matcher: Gitignore,
}

impl IgnoreRules {
    #[verifier::type_invariant]
    spec fn has_defaults(&self) -> bool {
        default_matcher(self.matcher)
    }

    /// The lines that the rules are in, in order.
    pub closed spec fn lines(&self) -> Seq<Seq<char>> {
        matcher_lines(self.matcher)
    }

    /// Whether the rules ignore a path below their directory, or one of its
    /// parents.
    pub fn ignores(&self, path: &str, is_dir: bool) -> (r: bool)
        requires
            is_relative(path@),
        ensures
            r == path_ignored(self.lines(), path@, is_dir),
            self.lines().len() == 0 ==> !r,
    {
        proof {
            use_type_invariant(self);
        }
        is_path_ignored(&self.matcher, path, is_dir)
    }
}

/// The position of the first line feed, or the length.
pub open spec fn line_end(bytes: Seq<u8>) -> int
    decreases bytes.len(),
{
    if bytes.len() == 0 || bytes[0] == 10u8 {
        0
    } else {
        1 + line_end(bytes.drop_first())
    }
}

pub proof fn lemma_line_end(bytes: Seq<u8>)
    ensures
        0 <= line_end(bytes) <= bytes.len(),
    decreases bytes.len(),
{
    if bytes.len() > 0 && bytes[0] != 10u8 {
        lemma_line_end(bytes.drop_first());
    }
}

proof fn lemma_line_end_at(bytes: Seq<u8>, n: int)
    requires
        0 <= n <= bytes.len(),
        forall|j: int| 0 <= j < n ==> bytes[j] != 10u8,
        n < bytes.len() ==> bytes[n] == 10u8,
    ensures
        line_end(bytes) == n,
    decreases bytes.len(),
{
    if n > 0 {
        let rest = bytes.drop_first();
        assert forall|j: int| 0 <= j < n - 1 implies rest[j] != 10u8 by {
            assert(rest[j] == bytes[j + 1]);
        }
        lemma_line_end_at(rest, n - 1);
    }
}

/// A line of a file without its line ending.
pub open spec fn line_body(bytes: Seq<u8>) -> Seq<u8> {
    let n = line_end(bytes);
    let line = bytes.take(n);
    if n < bytes.len() && n > 0 && line[n - 1] == 13u8 {
        line.take(n - 1)
    } else {
        line
    }
}

/// A text without byte order marks at its start.
pub open spec fn without_marks(s: Seq<char>) -> Seq<char>
    decreases s.len(),
{
    if s.len() > 0 && s[0] == '\u{feff}' {
        without_marks(s.drop_first())
    } else {
        s
    }
}

/// The rules in a file: its lines up to the first that is not valid UTF-8. Byte
/// order marks before the first line do not count.
pub open spec fn rules_in(bytes: Seq<u8>, first: bool) -> Seq<Seq<char>>
    decreases bytes.len(),
    via rules_in_decreases
{
    if bytes.len() == 0 || !valid_utf8(line_body(bytes)) {
        seq![]
    } else {
        let text = decode_utf8(line_body(bytes));
        let line = if first {
            without_marks(text)
        } else {
            text
        };
        let n = line_end(bytes);
        if n >= bytes.len() {
            seq![line]
        } else {
            seq![line] + rules_in(bytes.skip(n + 1), false)
        }
    }
}

#[via_fn]
proof fn rules_in_decreases(bytes: Seq<u8>, first: bool) {
    lemma_line_end(bytes);
}

fn strip_marks(text: &str) -> (r: &str)
    ensures
        r@ == without_marks(text@),
{
    let n = text.unicode_len();
    let mut i: usize = 0;
    assert(text@.skip(0) =~= text@);
    while i < n && text.get_char(i) == '\u{feff}'
        invariant
            i <= n,
            n == text@.len(),
            without_marks(text@) == without_marks(text@.skip(i as int)),
        decreases n - i,
    {
        assert(text@.skip(i as int).drop_first() =~= text@.skip(i + 1));
        i += 1;
    }
    let r = text.substring_char(i, n);
    assert(r@ =~= text@.skip(i as int));
    r
}

fn copy_bytes(bytes: &Vec<u8>, from: usize, to: usize) -> (r: Vec<u8>)
    requires
        from <= to <= bytes@.len(),
    ensures
        r@ == bytes@.subrange(from as int, to as int),
{
    let mut r: Vec<u8> = Vec::new();
    let mut i: usize = from;
    while i < to
        invariant
            from <= i <= to <= bytes@.len(),
            r@ == bytes@.subrange(from as int, i as int),
        decreases to - i,
    {
        r.push(bytes[i]);
        i += 1;
    }
    r
}

/// Adds the rules of a file to a builder.
fn add_rules(builder: &mut GitignoreBuilder, bytes: &Vec<u8>)
    ensures
        default_builder(*final(builder)) == default_builder(*old(builder)),
        builder_lines(*final(builder)) == builder_lines(*old(builder)) + rules_in(bytes@, true),
{
    let mut start: usize = 0;
    let ghost begin = builder_lines(*builder);
    assert(bytes@.skip(0) =~= bytes@);
    while start < bytes.len()
        invariant
            start <= bytes@.len(),
            begin == builder_lines(*old(builder)),
            default_builder(*builder) == default_builder(*old(builder)),
            builder_lines(*builder) + rules_in(bytes@.skip(start as int), start == 0) == begin
                + rules_in(bytes@, true),
        decreases bytes.len() - start,
    {
        let ghost rest = bytes@.skip(start as int);
        let mut end: usize = start;
        while end < bytes.len() && bytes[end] != 10u8
            invariant
                start <= end <= bytes@.len(),
                forall|j: int| start <= j < end ==> bytes@[j] != 10u8,
            decreases bytes.len() - end,
        {
            end += 1;
        }
        proof {
            lemma_line_end_at(rest, end - start);
        }
        let stop: usize = if end < bytes.len() && end > start && bytes[end - 1] == 13u8 {
            end - 1
        } else {
            end
        };
        let body = copy_bytes(bytes, start, stop);
        assert(body@ =~= line_body(rest));
        match utf8_text(body) {
            Ok(text) => {
                let line = if start == 0 {
                    strip_marks(text.as_str())
                } else {
                    text.as_str()
                };
                let ghost before = builder_lines(*builder);
                add_rule(builder, line);
                if end >= bytes.len() {
                    assert(builder_lines(*builder) =~= before + seq![line@]);
                    assert(rules_in(rest, start == 0) == seq![line@]);
                    return;
                }
                proof {
                    let tail = rest.skip(end - start + 1);
                    assert(tail =~= bytes@.skip(end + 1));
                    assert(rules_in(rest, start == 0) == seq![line@] + rules_in(tail, false));
                    assert(before + (seq![line@] + rules_in(tail, false)) =~= before.push(line@)
                        + rules_in(tail, false));
                }
                start = end + 1;
            },
            Err(_) => {
                assert(builder_lines(*builder) + seq![] =~= builder_lines(*builder));
                return;
            },
        }
    }
    assert(rules_in(bytes@.skip(start as int), start == 0) =~= seq![]);
    assert(builder_lines(*builder) + seq![] =~= builder_lines(*builder));
}

/// The rules that hold for a workspace: those of the repository, then those of
/// the workspace itself.
pub open spec fn workspace_rules(root: Option<Seq<u8>>, workspace: Option<Seq<u8>>) -> Seq<
    Seq<char>,
> {
    (match root {
        Some(bytes) => rules_in(bytes, true),
        None => seq![],
    }) + (match workspace {
        Some(bytes) => rules_in(bytes, true),
        None => seq![],
    })
}

/// The view of the bytes of a file that may be missing.
pub open spec fn opt_bytes(o: Option<Vec<u8>>) -> Option<Seq<u8>> {
    match o {
        Some(v) => Some(v@),
        None => None,
    }
}

/// The rules in the ignore files of a workspace, given their bytes. The
/// second file is that of a workspace below the root of its repository.
pub fn workspace_gitignore(root: &Option<Vec<u8>>, workspace: &Option<Vec<u8>>) -> (r: Option<
    IgnoreRules,
>)
    ensures
        r is Some <==> rules_build(workspace_rules(opt_bytes(*root), opt_bytes(*workspace))),
        workspace_rules(opt_bytes(*root), opt_bytes(*workspace)).len() == 0 ==> r is Some,
        r matches Some(rules) ==> rules.lines() == workspace_rules(
            opt_bytes(*root),
            opt_bytes(*workspace),
        ),
{
    let mut builder = new_rules();
    if let Some(bytes) = root {
        add_rules(&mut builder, bytes);
    }
    if let Some(bytes) = workspace {
        add_rules(&mut builder, bytes);
    }
    assert(builder_lines(builder) =~= workspace_rules(opt_bytes(*root), opt_bytes(*workspace)));
    match build_rules(&builder) {
        Some(matcher) => Some(IgnoreRules { matcher }),
        None => None,
    }
}

/// Whether a path below a workspace belongs to a directory that no completion
/// offers.
pub open spec fn internal_path(path: Seq<char>) -> bool {
    ||| path == ".git"@
    ||| ".git/"@.is_prefix_of(path)
    ||| path == "build"@
    ||| "build/"@.is_prefix_of(path)
    ||| path == "target"@
    ||| "target/"@.is_prefix_of(path)
}

/// Whether a completion offers a path of which the ignore rules say `ignored`.
/// The path is relative to the workspace; nothing outside of it is offered.
pub open spec fn offers_path(relative: Option<Seq<char>>, ignored: bool) -> bool {
    match relative {
        Some(path) => !ignored && (path.len() == 0 || !internal_path(with_slashes(path))),
        None => false,
    }
}

/// Tells whether a completion offers a path, given what the ignore rules say.
pub fn is_offered_path(relative: Option<&str>, ignored: bool) -> (r: bool)
    ensures
        r == offers_path(
            match relative {
                Some(p) => Some(p@),
                None => None,
            },
            ignored,
        ),
{
    match relative {
        Some(path) => {
            let slashed = replace_backslashes(path);
            let path = slashed.as_str();
            !ignored && (path.is_empty() || !(str_eq(path, ".git") || starts_with(path, ".git/")
                || str_eq(path, "build") || starts_with(path, "build/") || str_eq(path, "target")
                || starts_with(path, "target/")))
        },
        None => false,
    }
}

/// Whether there are rules that ignore a path below their directory.
pub open spec fn ignored_by(rules: Option<IgnoreRules>, path: Seq<char>, is_dir: bool) -> bool {
    match rules {
        Some(found) => path_ignored(found.lines(), path, is_dir),
        None => false,
    }
}

/// Tells whether a completion offers a path. It is given relative to the
/// workspace, and relative to the directory of the ignore rules.
pub fn should_include_completion_path(
    relative: Option<&str>,
    below_rules: &str,
    is_dir: bool,
    rules: &Option<IgnoreRules>,
) -> (r: bool)
    requires
        is_relative(below_rules@),
    ensures
        r == offers_path(
            match relative {
                Some(p) => Some(p@),
                None => None,
            },
            ignored_by(*rules, below_rules@, is_dir),
        ),
{
    let ignored = match rules {
        Some(found) => found.ignores(below_rules, is_dir),
        None => false,
    };
    is_offered_path(relative, ignored)
}

} // verus!
