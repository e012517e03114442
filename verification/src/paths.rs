//! Paths as texts with `/` between their parts.

use crate::text::{text_of, to_chars};
use vstd::prelude::*;

verus! {

/// `name` below `base`: a path that starts with `/` stands for itself;
/// else the two are put together, with a `/` between them unless `base` is
/// empty or ends with one.
pub open spec fn joined(base: Seq<char>, name: Seq<char>) -> Seq<char> {
    if name.len() > 0 && name[0] == '/' {
        name
    } else if base.len() > 0 && base.last() != '/' {
        base + seq!['/'] + name
    } else {
        base + name
    }
}

/// `name` below `base`.
pub fn join(base: &str, name: &str) -> (path: String)
    ensures
        path@ == joined(base@, name@),
{
    let head = to_chars(base);
    let tail = to_chars(name);
    let mut chars: Vec<char> = Vec::new();
    if !(tail.len() > 0 && tail[0] == '/') {
        let mut i: usize = 0;
        while i < head.len()
            invariant
                i <= head.len(),
                chars@ == head@.take(i as int),
            decreases head.len() - i,
        {
            chars.push(head[i]);
            i += 1;
        }
        assert(head@.take(i as int) == head@);
        if head.len() > 0 && head[head.len() - 1] != '/' {
            chars.push('/');
        }
    }
    let ghost start = chars@;
    let mut j: usize = 0;
    while j < tail.len()
        invariant
            j <= tail.len(),
            chars@ == start + tail@.take(j as int),
        decreases tail.len() - j,
    {
        chars.push(tail[j]);
        j += 1;
    }
    assert(tail@.take(j as int) == tail@);
    assert(chars@ =~= joined(base@, name@));
    text_of(&chars, 0, chars.len())
}

/// Where the last `/` of `path` stands, or -1 where it has none.
pub open spec fn last_slash(path: Seq<char>) -> int
    decreases path.len(),
{
    if path.len() == 0 {
        -1
    } else if path.last() == '/' {
        path.len() - 1
    } else {
        last_slash(path.drop_last())
    }
}

/// The directory that holds `path`: what stands before its last `/`, or `/`
/// itself where nothing does. `/` has none, and neither has a path without a
/// `/`. For an absolute path without `.`, `..`, empty parts or a `/` at its
/// end this is its parent directory.
pub open spec fn parent_of(path: Seq<char>) -> Option<Seq<char>> {
    let cut = last_slash(path);
    if cut < 0 {
        None
    } else if cut == 0 {
        if path.len() == 1 {
            None
        } else {
            Some(seq!['/'])
        }
    } else {
        Some(path.take(cut))
    }
}

/// The last `/` of a path stands inside it.
pub proof fn lemma_last_slash(path: Seq<char>)
    ensures
        -1 <= last_slash(path) < path.len(),
        last_slash(path) >= 0 ==> path[last_slash(path)] == '/',
        forall|i: int| last_slash(path) < i < path.len() ==> path[i] != '/',
    decreases path.len(),
{
    if path.len() > 0 && path.last() != '/' {
        lemma_last_slash(path.drop_last());
        assert forall|i: int| last_slash(path) < i < path.len() implies path[i] != '/' by {
            if i < path.len() - 1 {
                assert(path.drop_last()[i] == path[i]);
            }
        }
    }
}

/// The directory that holds a path is shorter than the path, and the path
/// starts with it.
pub proof fn lemma_parent_shorter(path: Seq<char>)
    ensures
        parent_of(path) matches Some(up) ==> up.len() < path.len() && up == path.take(
            up.len() as int,
        ),
{
    lemma_last_slash(path);
    if let Some(up) = parent_of(path) {
        if last_slash(path) == 0 {
            assert(up =~= path.take(1));
        }
    }
}

/// `path` and the directories above it, nearest first.
pub open spec fn ancestors(path: Seq<char>) -> Seq<Seq<char>>
    decreases path.len(),
    via ancestors_decreases
{
    match parent_of(path) {
        Some(up) => seq![path] + ancestors(up),
        None => seq![path],
    }
}

#[via_fn]
proof fn ancestors_decreases(path: Seq<char>) {
    lemma_parent_shorter(path);
}

/// The directory that holds the path `chars`, as the length of the path that
/// names it (the directory is `chars[..len]`).
pub fn parent_len(chars: &Vec<char>) -> (len: Option<usize>)
    ensures
        match len {
            Some(len) => len <= chars.len() && parent_of(chars@) == Some(chars@.take(len as int)),
            None => parent_of(chars@) is None,
        },
{
    let mut end: usize = chars.len();
    assert(chars@.take(end as int) == chars@);
    while end > 0 && chars[end - 1] != '/'
        invariant
            end <= chars.len(),
            last_slash(chars@) == last_slash(chars@.take(end as int)),
        decreases end,
    {
        assert(chars@.take(end as int).drop_last() == chars@.take(end - 1));
        end -= 1;
    }
    if end == 0 {
        None
    } else if end == 1 {
        if chars.len() == 1 {
            None
        } else {
            assert(chars@.take(1) =~= seq!['/']);
            Some(1)
        }
    } else {
        Some(end - 1)
    }
}

/// The directory that holds `path`.
pub fn parent_dir(path: &str) -> (up: Option<String>)
    ensures
        up.deep_view() == parent_of(path@),
{
    let chars = to_chars(path);
    match parent_len(&chars) {
        Some(len) => Some(text_of(&chars, 0, len)),
        None => None,
    }
}

} // verus!
