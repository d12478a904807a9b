//! How a file name falls apart at its dots.
//!
//! Two splits are in use and neither is derived from the other: stem and
//! extension part at the last dot of the name, file prefix and tail at the
//! first dot that is not the leading byte.

use vstd::prelude::*;
use vstd::slice::slice_subrange;

verus! {

/// The byte that separates the parts of a file name.
pub const DOT: u8 = 46;

/// The name of the parent directory, which is never split.
pub open spec fn dot_dot() -> Seq<u8> {
    seq![DOT, DOT]
}

/// The index of the last dot of `name`, or -1 where it has none.
pub open spec fn last_dot(name: Seq<u8>) -> int
    decreases name.len(),
{
    if name.len() == 0 {
        -1
    } else if name.last() == DOT {
        name.len() - 1
    } else {
        last_dot(name.drop_last())
    }
}

/// The index of the first dot of `name` at or behind `from`, or the length of
/// `name` where there is none.
pub open spec fn first_dot_from(name: Seq<u8>, from: int) -> int
    decreases name.len() - from,
{
    if from < 0 || from >= name.len() {
        name.len() as int
    } else if name[from] == DOT {
        from
    } else {
        first_dot_from(name, from + 1)
    }
}

/// Whether `name` has a last dot at which it parts into stem and extension: a
/// dot that is not its leading byte, in a name other than `..`.
pub open spec fn parts_at_last_dot(name: Seq<u8>) -> bool {
    name != dot_dot() && last_dot(name) > 0
}

/// The extension of `name`: the bytes behind its last dot.
pub open spec fn name_extension(name: Seq<u8>) -> Option<Seq<u8>> {
    if parts_at_last_dot(name) {
        Some(name.skip(last_dot(name) + 1))
    } else {
        None
    }
}

/// The stem of `name`: the bytes before its last dot, or the whole name where
/// it does not part.
pub open spec fn name_stem(name: Seq<u8>) -> Seq<u8> {
    if parts_at_last_dot(name) {
        name.take(last_dot(name))
    } else {
        name
    }
}

/// The file prefix of `file` and the tail behind it: `file` parts at its first
/// dot that is not the leading byte. A name without such a dot, and the name
/// `..`, is all prefix and has no tail.
pub open spec fn split_at_first_dot(file: Seq<u8>) -> (Seq<u8>, Option<Seq<u8>>) {
    let i = first_dot_from(file, 1);
    if file == dot_dot() || i >= file.len() {
        (file, None)
    } else {
        (file.take(i), Some(file.skip(i + 1)))
    }
}

/// Splits a file name into its file prefix and, where it has one, the tail
/// behind the first dot that is not its leading byte.
pub fn split_file_at_dot(file: &[u8]) -> (r: (&[u8], Option<&[u8]>))
    ensures
        r.0@ == split_at_first_dot(file@).0,
        match r.1 {
            Some(after) => split_at_first_dot(file@).1 == Some(after@),
            None => split_at_first_dot(file@).1 is None,
        },
{
    let n = file.len();
    if n == 2 && file[0] == DOT && file[1] == DOT {
        assert(file@ =~= dot_dot());
        return (file, None);
    }
    assert(file@ != dot_dot()) by {
        if file@ == dot_dot() {
            assert(file@.len() == 2 && file@[0] == DOT && file@[1] == DOT);
        }
    }
    let mut i: usize = 1;
    while i < n
        invariant
            1 <= i,
            n == file@.len(),
            file@ != dot_dot(),
            first_dot_from(file@, 1) == first_dot_from(file@, i as int),
        decreases n - i,
    {
        if file[i] == DOT {
            let before = slice_subrange(file, 0, i);
            let after = slice_subrange(file, i + 1, n);
            assert(before@ =~= file@.take(i as int));
            assert(after@ =~= file@.skip(i + 1));
            return (before, Some(after));
        }
        i = i + 1;
    }
    (file, None)
}

} // verus!
