//! Paths as text, joined the way a Unix `PathBuf::join` joins them.
use vstd::prelude::*;
use crate::text::{chars_of, owned};

verus! {

/// The separator of every path this library builds.
pub const SEPARATOR: char = '/';

/// `base` joined with `tail`: `tail` itself when it is absolute, `base` followed by `tail` when
/// `base` is empty or already ends in a separator, and `base`, a separator and `tail` otherwise.
pub open spec fn join(base: Seq<char>, tail: Seq<char>) -> Seq<char> {
    if tail.len() > 0 && tail[0] == SEPARATOR {
        tail
    } else if base.len() == 0 || base.last() == SEPARATOR {
        base + tail
    } else {
        base + seq![SEPARATOR] + tail
    }
}

/// Joins `tail` onto `base`, as [`join`] says.
pub fn path_join(base: &str, tail: &str) -> (path: String)
    ensures
        path@ == join(base@, tail@),
{
    let b = chars_of(base);
    let t = chars_of(tail);
    if t.len() > 0 && t[0] == SEPARATOR {
        return owned(tail);
    }
    let mut path = owned(base);
    if !(b.len() == 0 || b[b.len() - 1] == SEPARATOR) {
        path.push(SEPARATOR);
    }
    path.append(tail);
    path
}

/// A joined path begins with its base, whenever the tail is relative.
pub proof fn lemma_join_keeps_base(base: Seq<char>, tail: Seq<char>)
    requires
        tail.len() == 0 || tail[0] != SEPARATOR,
    ensures
        join(base, tail).len() >= base.len(),
        join(base, tail).take(base.len() as int) == base,
{
    assert(join(base, tail).take(base.len() as int) =~= base);
}

} // verus!
