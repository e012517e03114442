//! Text as sequences of characters: the few string operations the rest of
//! the crate is built from.

use vstd::prelude::*;

verus! {

/// `String::push` of the standard library: the character is appended at the
/// end and nothing else changes.
pub assume_specification[ String::push ](s: &mut String, c: char)
    ensures
        final(s)@ == old(s)@.push(c),
;

/// The characters of `s`, in order.
pub fn to_chars(s: &str) -> (chars: Vec<char>)
    ensures
        chars@ == s@,
{
    let mut chars: Vec<char> = Vec::new();
    for c in it: s.chars()
        invariant
            it.seq() == s@,
            chars@ == it.seq().take(it.index() as int),
    {
        chars.push(c);
    }
    chars
}

/// The text made of `chars[from..to]`.
pub fn text_of(chars: &Vec<char>, from: usize, to: usize) -> (s: String)
    requires
        from <= to <= chars.len(),
    ensures
        s@ == chars@.subrange(from as int, to as int),
{
    let mut s = String::new();
    let mut i: usize = from;
    while i < to
        invariant
            from <= i <= to <= chars.len(),
            s@ == chars@.subrange(from as int, i as int),
        decreases to - i,
    {
        s.push(chars[i]);
        i += 1;
    }
    s
}

/// Whether two texts hold the same characters.
pub fn same_text(a: &str, b: &str) -> (same: bool)
    ensures
        same == (a@ == b@),
{
    let x = to_chars(a);
    let y = to_chars(b);
    if x.len() != y.len() {
        return false;
    }
    let mut i: usize = 0;
    while i < x.len()
        invariant
            i <= x.len(),
            x.len() == y.len(),
            x@ == a@,
            y@ == b@,
            x@.take(i as int) == y@.take(i as int),
        decreases x.len() - i,
    {
        if x[i] != y[i] {
            return false;
        }
        assert(x@.take(i + 1) == x@.take(i as int).push(x@[i as int]));
        assert(y@.take(i + 1) == y@.take(i as int).push(y@[i as int]));
        i += 1;
    }
    assert(x@.take(i as int) == x@);
    assert(y@.take(i as int) == y@);
    true
}

/// `a` followed by `b`.
pub fn concat(a: &str, b: &str) -> (s: String)
    ensures
        s@ == a@ + b@,
{
    let mut s = String::new();
    for c in it: a.chars()
        invariant
            it.seq() == a@,
            s@ == it.seq().take(it.index() as int),
    {
        s.push(c);
    }
    assert(a@.take(a@.len() as int) == a@);
    for c in it: b.chars()
        invariant
            it.seq() == b@,
            s@ == a@ + it.seq().take(it.index() as int),
    {
        s.push(c);
    }
    assert(b@.take(b@.len() as int) == b@);
    s
}

/// Appends `s` to `list`.
pub fn push_text(list: &mut Vec<String>, s: String)
    ensures
        final(list).deep_view() == old(list).deep_view().push(s@),
{
    list.push(s);
    assert(list.deep_view() =~= old(list).deep_view().push(s@));
}

/// White space as Unicode defines it (the property `White_Space`).
pub open spec fn is_space(c: char) -> bool {
    ||| '\u{9}' <= c <= '\u{d}'
    ||| c == ' '
    ||| c == '\u{85}'
    ||| c == '\u{a0}'
    ||| c == '\u{1680}'
    ||| '\u{2000}' <= c <= '\u{200a}'
    ||| c == '\u{2028}'
    ||| c == '\u{2029}'
    ||| c == '\u{202f}'
    ||| c == '\u{205f}'
    ||| c == '\u{3000}'
}

/// `s` without the white space it starts with.
pub open spec fn trim_start(s: Seq<char>) -> Seq<char>
    decreases s.len(),
{
    if s.len() > 0 && is_space(s[0]) {
        trim_start(s.drop_first())
    } else {
        s
    }
}

/// `s` without the white space it ends with.
pub open spec fn trim_end(s: Seq<char>) -> Seq<char>
    decreases s.len(),
{
    if s.len() > 0 && is_space(s.last()) {
        trim_end(s.drop_last())
    } else {
        s
    }
}

/// `s` without the white space at either end.
pub open spec fn trimmed(s: Seq<char>) -> Seq<char> {
    trim_end(trim_start(s))
}

/// Whether `c` is white space.
pub fn space(c: char) -> (b: bool)
    ensures
        b == is_space(c),
{
    ('\u{9}' <= c && c <= '\u{d}') || c == ' ' || c == '\u{85}' || c == '\u{a0}' || c
        == '\u{1680}' || ('\u{2000}' <= c && c <= '\u{200a}') || c == '\u{2028}' || c
        == '\u{2029}' || c == '\u{202f}' || c == '\u{205f}' || c == '\u{3000}'
}

/// The characters of `s` between the white space at its two ends.
pub fn trim_chars(s: &str) -> (chars: Vec<char>)
    ensures
        chars@ == trimmed(s@),
{
    let all = to_chars(s);
    let mut lo: usize = 0;
    assert(all@.subrange(0, all.len() as int) == all@);
    while lo < all.len() && space(all[lo])
        invariant
            lo <= all.len(),
            trim_start(all@) == trim_start(all@.subrange(lo as int, all.len() as int)),
        decreases all.len() - lo,
    {
        assert(all@.subrange(lo as int, all.len() as int).drop_first() == all@.subrange(
            lo + 1,
            all.len() as int,
        ));
        lo += 1;
    }
    let mut hi: usize = all.len();
    while lo < hi && space(all[hi - 1])
        invariant
            lo <= hi <= all.len(),
            trim_start(all@) == all@.subrange(lo as int, all.len() as int),
            trimmed(all@) == trim_end(all@.subrange(lo as int, hi as int)),
        decreases hi - lo,
    {
        assert(all@.subrange(lo as int, hi as int).drop_last() == all@.subrange(
            lo as int,
            hi - 1,
        ));
        hi -= 1;
    }
    let mut chars: Vec<char> = Vec::new();
    let mut i: usize = lo;
    while i < hi
        invariant
            lo <= i <= hi <= all.len(),
            chars@ == all@.subrange(lo as int, i as int),
        decreases hi - i,
    {
        chars.push(all[i]);
        i += 1;
    }
    chars
}

/// `s` without the white space at either end.
pub fn trim(s: &str) -> (t: String)
    ensures
        t@ == trimmed(s@),
{
    let chars = trim_chars(s);
    text_of(&chars, 0, chars.len())
}

} // verus!
