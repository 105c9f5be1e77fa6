//! Paths as texts with slashes between their parts.
use vstd::prelude::*;
use vstd::string::*;

use crate::text::{chars_of, split, split_on, str_eq, string_of, texts};

verus! {

/// Whether a part of a path stands for an entry, and not for nothing or for the
/// directory itself.
pub open spec fn counts(part: Seq<char>) -> bool {
    part.len() > 0 && part != "."@
}

/// The last part of a path that counts.
pub open spec fn last_part(parts: Seq<Seq<char>>) -> Option<Seq<char>>
    decreases parts.len(),
{
    if parts.len() == 0 {
        None
    } else if counts(parts.last()) {
        Some(parts.last())
    } else {
        last_part(parts.drop_last())
    }
}

/// The name of the file that a path leads to. A path to a parent directory has
/// none.
pub open spec fn name_of_path(path: Seq<char>) -> Option<Seq<char>> {
    match last_part(split_on(path, '/')) {
        Some(part) => if part == ".."@ {
            None
        } else {
            Some(part)
        },
        None => None,
    }
}

/// The name of the file that a path leads to.
pub fn file_name(path: &str) -> (r: Option<String>)
    ensures
        match r {
            Some(s) => name_of_path(path@) == Some(s@),
            None => name_of_path(path@) is None,
        },
{
    let parts = split(path, '/');
    let mut i: usize = parts.len();
    let ghost all = texts(parts@);
    assert(all.take(i as int) =~= all);
    while i > 0
        invariant
            i <= parts@.len(),
            all == texts(parts@),
            all == split_on(path@, '/'),
            last_part(all) == last_part(all.take(i as int)),
        decreases i,
    {
        assert(all.take(i as int).drop_last() =~= all.take(i - 1));
        let part = parts[i - 1].as_str();
        if !part.is_empty() && !str_eq(part, ".") {
            if str_eq(part, "..") {
                return None;
            }
            return Some(parts[i - 1].clone());
        }
        i -= 1;
    }
    None
}

/// The position of the last dot of a name, if there is one.
pub open spec fn last_dot(name: Seq<char>) -> Option<int>
    decreases name.len(),
{
    if name.len() == 0 {
        None
    } else if name.last() == '.' {
        Some(name.len() - 1)
    } else {
        last_dot(name.drop_last())
    }
}

/// The extension of a file name: what stands behind its last dot. A dot at the
/// start begins no extension.
pub open spec fn extension_of(name: Seq<char>) -> Seq<char> {
    match last_dot(name) {
        Some(k) => if k == 0 {
            Seq::empty()
        } else {
            name.skip(k + 1)
        },
        None => Seq::empty(),
    }
}

/// The extension of a file name.
pub fn extension(name: &str) -> (r: String)
    ensures
        r@ == extension_of(name@),
{
    let chars = chars_of(name);
    let n = chars.len();
    let mut i: usize = n;
    assert(name@.take(n as int) =~= name@);
    while i > 0
        invariant
            i <= n,
            n == chars@.len(),
            chars@ == name@,
            last_dot(name@) == last_dot(name@.take(i as int)),
        decreases i,
    {
        assert(name@.take(i as int).drop_last() =~= name@.take(i - 1));
        if chars[i - 1] == '.' {
            if i == 1 {
                return String::new();
            }
            let r = string_of(&chars, i, n);
            assert(r@ =~= name@.skip(i as int));
            return r;
        }
        i -= 1;
    }
    String::new()
}

} // verus!
