//! Finding the project that a directory belongs to: the nearest directory,
//! going up, that holds both the project's configuration file and its
//! state directory.

use crate::paths::{ancestors, join, joined, lemma_parent_shorter, parent_len, parent_of};
use crate::text::{push_text, text_of, to_chars};
use vstd::prelude::*;

verus! {

/// What was found in one directory.
#[derive(Clone, Copy, Debug, PartialEq, Eq, Structural)]
pub struct DirProbe {
    /// The configuration file is there.
    pub config_file: bool,
    /// The state directory is there, and is a directory.
    pub state_dir: bool,
}

impl DirProbe {
    /// Whether the directory is the top of a project: it holds both.
    pub open spec fn qualifies(self) -> bool {
        self.config_file && self.state_dir
    }

    /// Whether the directory is the top of a project.
    pub fn is_project_root(&self) -> (b: bool)
        ensures
            b == self.qualifies(),
    {
        self.config_file && self.state_dir
    }
}

/// The two paths to look for in `dir`: the configuration file, then the
/// state directory.
pub fn marker_paths(dir: &str) -> (markers: (String, String))
    ensures
        markers.0@ == joined(dir@, "max.json"@),
        markers.1@ == joined(dir@, ".max"@),
{
    (join(dir, "max.json"), join(dir, ".max"))
}

/// `path` and the directories above it, nearest first: the directories to
/// look into, in this order.
pub fn search_path(path: &str) -> (dirs: Vec<String>)
    ensures
        dirs.deep_view() == ancestors(path@),
{
    let chars = to_chars(path);
    let mut dirs: Vec<String> = Vec::new();
    let mut len: usize = chars.len();
    assert(chars@.take(len as int) == chars@);
    assert(Seq::<Seq<char>>::empty() + ancestors(chars@) == ancestors(chars@));
    loop
        invariant_except_break
            len <= chars.len(),
            ancestors(path@) == dirs.deep_view() + ancestors(chars@.take(len as int)),
        ensures
            dirs.deep_view() == ancestors(path@),
        decreases len,
    {
        let ghost here = chars@.take(len as int);
        let current = prefix_of(&chars, len);
        proof {
            lemma_parent_shorter(here);
        }
        let ghost before = dirs.deep_view();
        assert(current@.subrange(0, current.len() as int) == here);
        push_text(&mut dirs, text_of(&current, 0, current.len()));
        assert(dirs.deep_view() == before.push(here));
        match parent_len(&current) {
            Some(up) => {
                assert(here.take(up as int) == chars@.take(up as int));
                assert(ancestors(here) == seq![here] + ancestors(here.take(up as int)));
                assert(before + (seq![here] + ancestors(here.take(up as int))) == before.push(here)
                    + ancestors(here.take(up as int)));
                len = up;
            },
            None => {
                assert(ancestors(here) == seq![here]);
                assert(before + seq![here] == before.push(here));
                break ;
            },
        }
    }
    dirs
}

/// The first `len` characters of `chars`.
fn prefix_of(chars: &Vec<char>, len: usize) -> (prefix: Vec<char>)
    requires
        len <= chars.len(),
    ensures
        prefix@ == chars@.take(len as int),
{
    let mut prefix: Vec<char> = Vec::new();
    let mut i: usize = 0;
    while i < len
        invariant
            i <= len <= chars.len(),
            prefix@ == chars@.take(i as int),
        decreases len - i,
    {
        prefix.push(chars[i]);
        i += 1;
    }
    prefix
}

/// The first of `dirs` whose probe qualifies. A directory without a probe
/// counts as not probed, and so as none.
pub open spec fn first_root(dirs: Seq<Seq<char>>, probes: Seq<DirProbe>) -> Option<Seq<char>>
    decreases dirs.len(),
{
    if dirs.len() == 0 || probes.len() == 0 {
        None
    } else if probes[0].qualifies() {
        Some(dirs[0])
    } else {
        first_root(dirs.drop_first(), probes.drop_first())
    }
}

/// The top of the project that `start` belongs to, where `probes[i]` says
/// what was found in the `i`-th directory of `search_path(start)`: the
/// nearest of these directories that holds both markers, or none.
pub fn find_project_root(start: &str, probes: &Vec<DirProbe>) -> (root: Option<String>)
    ensures
        root.deep_view() == first_root(ancestors(start@), probes@),
{
    let dirs = search_path(start);
    let mut i: usize = 0;
    let ghost all = dirs.deep_view();
    assert(all.skip(0) == all);
    assert(probes@.skip(0) == probes@);
    while i < dirs.len() && i < probes.len()
        invariant
            i <= dirs.len(),
            i <= probes.len(),
            all == dirs.deep_view(),
            all == ancestors(start@),
            first_root(all, probes@) == first_root(all.skip(i as int), probes@.skip(i as int)),
        decreases dirs.len() - i,
    {
        assert(all.skip(i as int).drop_first() == all.skip(i + 1));
        assert(probes@.skip(i as int).drop_first() == probes@.skip(i + 1));
        assert(all.skip(i as int)[0] == dirs@[i as int]@);
        assert(probes@.skip(i as int)[0] == probes@[i as int]);
        if probes[i].is_project_root() {
            let root = dirs[i].clone();
            assert(first_root(all.skip(i as int), probes@.skip(i as int)) == Some(root@));
            return Some(root);
        }
        i += 1;
    }
    None
}

/// What `first_root` finds is the first directory that qualifies: it is one
/// of `dirs`, its probe qualifies, and no probe before it does. It finds
/// none only where no probed directory qualifies.
pub proof fn lemma_first_root_is_nearest(dirs: Seq<Seq<char>>, probes: Seq<DirProbe>)
    ensures
        match first_root(dirs, probes) {
            Some(root) => exists|i: int|
                0 <= i < dirs.len() && i < probes.len() && root == dirs[i]
                    && #[trigger] probes[i].qualifies() && forall|j: int|
                    0 <= j < i ==> !#[trigger] probes[j].qualifies(),
            None => forall|i: int|
                0 <= i < dirs.len() && i < probes.len() ==> !#[trigger] probes[i].qualifies(),
        },
    decreases dirs.len(),
{
    if dirs.len() == 0 || probes.len() == 0 {
    } else if probes[0].qualifies() {
        assert(0 <= 0 < dirs.len() && probes[0].qualifies());
    } else {
        let rest_dirs = dirs.drop_first();
        let rest_probes = probes.drop_first();
        lemma_first_root_is_nearest(rest_dirs, rest_probes);
        match first_root(rest_dirs, rest_probes) {
            Some(root) => {
                let i = choose|i: int|
                    0 <= i < rest_dirs.len() && i < rest_probes.len() && root == rest_dirs[i]
                        && #[trigger] rest_probes[i].qualifies() && forall|j: int|
                        0 <= j < i ==> !#[trigger] rest_probes[j].qualifies();
                assert(probes[i + 1] == rest_probes[i]);
                assert(forall|j: int|
                    0 <= j < i + 1 ==> !#[trigger] probes[j].qualifies()) by {
                    assert forall|j: int| 0 <= j < i + 1 implies !#[trigger] probes[j].qualifies() by {
                        if j > 0 {
                            assert(probes[j] == rest_probes[j - 1]);
                        }
                    }
                }
                assert(root == dirs[i + 1] && probes[i + 1].qualifies());
            },
            None => {
                assert forall|i: int| 0 <= i < dirs.len() && i < probes.len() implies !#[trigger] probes[i].qualifies() by {
                    if i > 0 {
                        assert(probes[i] == rest_probes[i - 1]);
                    }
                }
            },
        }
    }
}

/// Every directory of a search path is the start of the path it was made
/// for: the search never leaves the line from the start to `/`.
pub proof fn lemma_search_path_goes_up(path: Seq<char>, i: int)
    requires
        0 <= i < ancestors(path).len(),
    ensures
        ancestors(path)[0] == path,
        ancestors(path)[i].len() <= path.len(),
        ancestors(path)[i] == path.take(ancestors(path)[i].len() as int),
    decreases path.len(),
{
    lemma_parent_shorter(path);
    match parent_of(path) {
        Some(up) => {
            if i > 0 {
                lemma_search_path_goes_up(up, i - 1);
                let dir = ancestors(up)[i - 1];
                assert(ancestors(path)[i] == dir);
                assert(dir =~= path.take(dir.len() as int));
            } else {
                assert(path =~= path.take(path.len() as int));
            }
        },
        None => {
            assert(path =~= path.take(path.len() as int));
        },
    }
}

} // verus!
