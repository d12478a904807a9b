//! What holds of the operations whatever the path, stated over the same
//! functions as their contracts.

use crate::classify::{answer, normalized, resolved, serialized};
use crate::command::{PathKind, Question};
use crate::component::{nth_index, rebuilt, Component};
use crate::dialect::{
    joined, path_cut_at_stem, path_file_name, path_parent, path_segments, SegmentKind,
    SegmentView,
};
use crate::name::{name_stem, parts_at_last_dot};
use crate::path::{join_all, segment_bytes, PathView};
use vstd::prelude::*;

verus! {

/// Whether the segment at `i` is one that normalizing keeps where it is:
/// not a `.`, and not a `..` directly behind an ordinary name.
pub open spec fn stays_at(segments: Seq<SegmentView>, i: int) -> bool {
    &&& segments[i].kind != SegmentKind::Current
    &&& (segments[i].kind == SegmentKind::Parent && i > 0 ==> segments[i - 1].kind
        != SegmentKind::Normal)
}

/// Whether `segments` hold nothing that normalizing would resolve.
pub open spec fn nothing_to_resolve(segments: Seq<SegmentView>) -> bool {
    forall|i: int| 0 <= i < segments.len() ==> #[trigger] stays_at(segments, i)
}

/// Replacing writes under a guard: a path that lacks the part comes back as it
/// is, and a path that has it comes back as `set` would leave it.
pub proof fn law_replace_is_guarded_set(component: Component, path: PathView, value: Seq<u8>)
    ensures
        !component.spec_has(path) ==> component.spec_replace(path, value) == path.bytes,
        component.spec_has(path) ==> component.spec_replace(path, value) == component.spec_set(
            path,
            value,
        ),
{
}

/// Deleting the extension of a path that has none changes nothing, so the
/// path still has none afterwards.
pub proof fn law_delete_absent_extension(path: PathView)
    requires
        !Component::Extension.spec_has(path),
    ensures
        Component::Extension.spec_delete(path) == path.bytes,
        !Component::Extension.spec_has(
            PathView { bytes: Component::Extension.spec_delete(path), kind: path.kind },
        ),
{
}

/// Deleting the extension of a path that has one cuts the path at the end of
/// the stem of its file name. Where the path that is left is read with that
/// stem for its file name, it has no extension unless the stem parts at a
/// dot of its own.
pub proof fn law_delete_extension_leaves_stem(path: PathView)
    requires
        Component::Extension.spec_has(path),
        path_file_name(path.bytes, path.windows()) matches Some(name) && path_file_name(
            path_cut_at_stem(path.bytes, path.windows()),
            path.windows(),
        ) == Some(name_stem(name)),
    ensures
        Component::Extension.spec_delete(path) == path_cut_at_stem(path.bytes, path.windows()),
        Component::Extension.spec_has(
            PathView { bytes: Component::Extension.spec_delete(path), kind: path.kind },
        ) ==> parts_at_last_dot(
            name_stem(path_file_name(path.bytes, path.windows()).unwrap()),
        ),
{
}

/// A negative index that reaches before the first segment finds nothing:
/// reading gives no bytes, and writing, replacing and deleting leave the path
/// as it is.
pub proof fn law_nth_before_first(n: isize, path: PathView, value: Seq<u8>)
    requires
        n < 0,
        path_segments(path.bytes, path.windows()).len() + n < 0,
    ensures
        Component::Nth(n).spec_get(path) == Seq::<u8>::empty(),
        !Component::Nth(n).spec_has(path),
        Component::Nth(n).spec_set(path, value) == path.bytes,
        Component::Nth(n).spec_replace(path, value) == path.bytes,
        Component::Nth(n).spec_delete(path) == path.bytes,
{
}

/// An index behind the last segment finds nothing to read, replace or delete;
/// the index just behind the last segment is where writing appends.
pub proof fn law_nth_behind_last(n: isize, path: PathView, value: Seq<u8>)
    requires
        n >= path_segments(path.bytes, path.windows()).len(),
    ensures
        Component::Nth(n).spec_get(path) == Seq::<u8>::empty(),
        Component::Nth(n).spec_replace(path, value) == path.bytes,
        Component::Nth(n).spec_delete(path) == path.bytes,
        n == path_segments(path.bytes, path.windows()).len() ==> Component::Nth(n).spec_set(
            path,
            value,
        ) == joined(path.bytes, path.windows(), value),
{
}

/// A Unix path has no drive: reading it gives no bytes, and writing,
/// replacing and deleting it leave the path as it is.
pub proof fn law_disk_of_unix_path(path: PathView, value: Seq<u8>)
    requires
        path.kind == PathKind::Unix,
    ensures
        Component::Disk.spec_get(path) == Seq::<u8>::empty(),
        !Component::Disk.spec_has(path),
        Component::Disk.spec_set(path, value) == path.bytes,
        Component::Disk.spec_replace(path, value) == path.bytes,
        Component::Disk.spec_delete(path) == path.bytes,
{
}

/// A path that has neither a file name nor a parent, as the root has none,
/// reads as empty for its extension, stem, file prefix, name and parent, and
/// deleting any of these leaves it as it is.
pub proof fn law_nothing_to_take_from_root(component: Component, path: PathView)
    requires
        path_file_name(path.bytes, path.windows()) is None,
        path_parent(path.bytes, path.windows()) is None,
        component == Component::Extension || component == Component::Stem || component
            == Component::Prefix || component == Component::Name || component
            == Component::Parent,
    ensures
        component.spec_get(path) == Seq::<u8>::empty(),
        !component.spec_has(path),
        component.spec_delete(path) == path.bytes,
{
}

/// Joining parts of which one is empty gives what joining the others gives.
pub proof fn law_empty_part_joins_nothing(
    start: Seq<u8>,
    windows: bool,
    parts: Seq<Seq<u8>>,
    at: int,
)
    requires
        0 <= at < parts.len(),
    ensures
        join_all(start, windows, parts.update(at, Seq::empty())) == join_all(
            start,
            windows,
            parts.remove(at),
        ),
    decreases parts.len(),
{
    let emptied = parts.update(at, Seq::empty());
    if at == parts.len() - 1 {
        assert(emptied.drop_last() =~= parts.remove(at));
    } else {
        law_empty_part_joins_nothing(start, windows, parts.drop_last(), at);
        assert(emptied.drop_last() =~= parts.drop_last().update(at, Seq::empty()));
        assert(parts.remove(at).drop_last() =~= parts.drop_last().remove(at));
        assert(parts.remove(at).last() == parts.last());
    }
}

/// A path joined to the empty path is that path.
pub proof fn law_joined_to_nothing(windows: bool, tail: Seq<u8>)
    ensures
        joined(Seq::empty(), windows, tail) == tail,
{
    assert(Seq::<u8>::empty() + tail =~= tail);
    assert(joined(Seq::empty(), windows, tail) =~= tail);
}

/// Rebuilding a path from parts, the first taken as a path, gives what
/// joining all the parts to the empty path gives.
pub proof fn law_rebuilt_from_nothing(parts: Seq<Seq<u8>>, windows: bool)
    ensures
        rebuilt(parts, windows) == join_all(Seq::empty(), windows, parts),
    decreases parts.len(),
{
    let nothing = Seq::<u8>::empty();
    if parts.len() == 1 {
        assert(parts.drop_last().len() == 0);
        assert(parts.skip(1).len() == 0);
        assert(join_all(nothing, windows, parts.drop_last()) == nothing);
        assert(join_all(parts[0], windows, parts.skip(1)) == parts[0]);
        law_joined_to_nothing(windows, parts[0]);
        assert(parts.last() == parts[0]);
    } else if parts.len() > 1 {
        let front = parts.drop_last();
        law_rebuilt_from_nothing(front, windows);
        assert(front[0] == parts[0]);
        assert(parts.skip(1).drop_last() =~= front.skip(1));
        assert(parts.skip(1).last() == parts.last());
        assert(join_all(parts[0], windows, parts.skip(1)) == joined(
            join_all(parts[0], windows, parts.skip(1).drop_last()),
            windows,
            parts.skip(1).last(),
        ));
    }
}

/// Deleting a segment that the path has rebuilds the path from the segments
/// that are left, in its own dialect.
pub proof fn law_delete_nth_removes_segment(n: isize, path: PathView)
    requires
        Component::Nth(n).spec_has(path),
    ensures
        ({
            let parts = segment_bytes(path_segments(path.bytes, path.windows()));
            let at = nth_index(n as int, parts.len() as int);
            &&& at matches Some(i) && 0 <= i < parts.len()
            &&& Component::Nth(n).spec_delete(path) == rebuilt(
                parts.remove(at.unwrap()),
                path.windows(),
            )
        }),
{
    let parts = segment_bytes(path_segments(path.bytes, path.windows()));
    let at = nth_index(n as int, parts.len() as int).unwrap();
    law_rebuilt_from_nothing(parts.update(at, Seq::empty()), path.windows());
    law_rebuilt_from_nothing(parts.remove(at), path.windows());
    law_empty_part_joins_nothing(Seq::empty(), path.windows(), parts, at);
}

/// Writing a segment back over itself rebuilds the path from its own
/// segments, unchanged and in its own dialect.
pub proof fn law_write_back_rebuilds(n: isize, path: PathView)
    requires
        nth_index(
            n as int,
            path_segments(path.bytes, path.windows()).len() as int,
        ) matches Some(i) && i < path_segments(path.bytes, path.windows()).len(),
    ensures
        Component::Nth(n).spec_set(path, Component::Nth(n).spec_get(path)) == serialized(
            path_segments(path.bytes, path.windows()),
            path.windows(),
        ),
{
    let parts = segment_bytes(path_segments(path.bytes, path.windows()));
    let at = nth_index(n as int, parts.len() as int).unwrap();
    assert(parts.update(at, parts[at]) =~= parts);
    law_rebuilt_from_nothing(parts, path.windows());
}

/// A path is relative exactly where it is not absolute.
pub proof fn law_relative_is_not_absolute(path: PathView)
    ensures
        answer(Question::Relative, path) == !answer(Question::Absolute, path),
{
}

/// What is left of any segments when they are resolved holds nothing more to
/// resolve: no `.`, and no `..` directly behind an ordinary name.
pub proof fn law_resolved_is_clean(segments: Seq<SegmentView>)
    ensures
        nothing_to_resolve(resolved(segments)),
    decreases segments.len(),
{
    if segments.len() > 0 {
        let kept = resolved(segments.drop_last());
        law_resolved_is_clean(segments.drop_last());
        let all = resolved(segments);
        assert forall|i: int| 0 <= i < all.len() implies #[trigger] stays_at(all, i) by {
            if i < kept.len() {
                assert(stays_at(kept, i));
            }
        }
    }
}

/// Resolving segments a second time changes nothing.
pub proof fn law_resolving_twice(segments: Seq<SegmentView>)
    ensures
        resolved(resolved(segments)) == resolved(segments),
{
    law_resolved_is_clean(segments);
    law_resolved_keeps_clean_segments(resolved(segments));
}

/// Segments that hold nothing to resolve are all kept when they are resolved.
pub proof fn law_resolved_keeps_clean_segments(segments: Seq<SegmentView>)
    requires
        nothing_to_resolve(segments),
    ensures
        resolved(segments) == segments,
    decreases segments.len(),
{
    if segments.len() > 0 {
        let front = segments.drop_last();
        assert forall|i: int| 0 <= i < front.len() implies #[trigger] stays_at(front, i) by {
            assert(stays_at(segments, i));
        }
        law_resolved_keeps_clean_segments(front);
        assert(stays_at(segments, segments.len() - 1));
        assert(front.push(segments.last()) =~= segments);
    }
}

/// Round trip of a normalized path whose segments hold nothing to resolve:
/// its full run of segments, joined anew without a change, gives the bytes it
/// was parsed from, and so does writing any of its segments back over
/// itself.
pub proof fn law_round_trip(path: PathView, n: isize)
    requires
        normalized(path) == path.bytes,
        nothing_to_resolve(path_segments(path.bytes, path.windows())),
    ensures
        serialized(path_segments(path.bytes, path.windows()), path.windows()) == path.bytes,
        Component::Nth(n).spec_has(path) ==> Component::Nth(n).spec_set(
            path,
            Component::Nth(n).spec_get(path),
        ) == path.bytes,
{
    law_resolved_keeps_clean_segments(path_segments(path.bytes, path.windows()));
    if Component::Nth(n).spec_has(path) {
        law_write_back_rebuilds(n, path);
    }
}

} // verus!
