//! Questions about a path, its normal form, and its form in the other
//! dialect.

use crate::bytes::{bytes_equal, to_vec};
use crate::command::{PathKind, Question};
use crate::dialect::{
    first_prefix, join, path_segments, segment_views, segments, windows_prefix, Prefix,
    PrefixView, Segment, SegmentKind, SegmentView, BACKSLASH, SLASH,
};
use crate::name::DOT;
use crate::path::{join_all, segment_bytes, PathValue, PathView};
use vstd::prelude::*;

verus! {

/// The segments that are left when `.` and `..` are resolved from the front:
/// a `.` goes; a `..` takes the ordinary name just before it away with it,
/// and stays where there is no such name (at the start, behind another `..`,
/// behind the root or a prefix).
pub open spec fn resolved(segments: Seq<SegmentView>) -> Seq<SegmentView>
    decreases segments.len(),
{
    if segments.len() == 0 {
        segments
    } else {
        let kept = resolved(segments.drop_last());
        let last = segments.last();
        if last.kind == SegmentKind::Current {
            kept
        } else if last.kind == SegmentKind::Parent && kept.len() > 0 && kept.last().kind
            == SegmentKind::Normal {
            kept.drop_last()
        } else {
            kept.push(last)
        }
    }
}

/// The path that `segments` make when they are joined one by one, beginning
/// with the empty path.
pub open spec fn serialized(segments: Seq<SegmentView>, windows: bool) -> Seq<u8> {
    join_all(Seq::empty(), windows, segment_bytes(segments))
}

/// The bytes of the normal form of `path`: its resolved segments, joined.
pub open spec fn normalized(path: PathView) -> Seq<u8> {
    serialized(resolved(path_segments(path.bytes, path.windows())), path.windows())
}

/// Whether a Windows path is absolute. It is where its segments begin with
/// the root marker (the bare root). A path that begins with a network share
/// is absolute where the share is named; a path that begins with any other
/// prefix, such as a drive, is absolute where the root marker stands
/// directly behind the prefix.
pub open spec fn rooted(bytes: Seq<u8>) -> bool {
    let segments = path_segments(bytes, true);
    if segments.len() >= 1 && segments[0].kind == SegmentKind::Root {
        true
    } else {
        match windows_prefix(bytes) {
            Some(PrefixView::Unc(_, share)) => share.len() > 0,
            Some(PrefixView::VerbatimUnc(_, share)) => share.len() > 0,
            Some(_) => segments.len() >= 2 && segments[1].kind == SegmentKind::Root,
            None => false,
        }
    }
}

/// Whether `path` is absolute. A Unix path is absolute where it begins with
/// the separator; a Windows path, where it begins with the bare root, with a
/// drive and the root, or with a named network share.
pub open spec fn absolute(path: PathView) -> bool {
    if path.windows() {
        rooted(path.bytes)
    } else {
        path.bytes.len() > 0 && path.bytes[0] == SLASH
    }
}

/// The bytes that write `segment` in the dialect told by `windows`: the root,
/// `.` and `..` are written as that dialect writes them, anything else keeps
/// its bytes.
pub open spec fn written_in(segment: SegmentView, windows: bool) -> Seq<u8> {
    match segment.kind {
        SegmentKind::Root => if windows {
            seq![BACKSLASH]
        } else {
            seq![SLASH]
        },
        SegmentKind::Current => seq![DOT],
        SegmentKind::Parent => seq![DOT, DOT],
        _ => segment.bytes,
    }
}

/// What is carried over from `segments` into the other dialect, each segment
/// written as that dialect writes it. A prefix is not carried over to Unix.
pub open spec fn carried_over(segments: Seq<SegmentView>, windows: bool) -> Seq<Seq<u8>>
    decreases segments.len(),
{
    if segments.len() == 0 {
        Seq::empty()
    } else if segments.last().kind == SegmentKind::Prefix && !windows {
        carried_over(segments.drop_last(), windows)
    } else {
        carried_over(segments.drop_last(), windows).push(written_in(segments.last(), windows))
    }
}

/// The bytes of `path` in the dialect `target`. A path that is of that
/// dialect already keeps its bytes; any other is parsed, and what is carried
/// over of its segments is joined under `target`.
pub open spec fn converted(path: PathView, target: PathKind) -> Seq<u8> {
    if target == path.kind {
        path.bytes
    } else {
        join_all(
            Seq::empty(),
            target.windows(),
            carried_over(path_segments(path.bytes, path.windows()), target.windows()),
        )
    }
}

/// The answer to `question` for `path`.
pub open spec fn answer(question: Question, path: PathView) -> bool {
    match question {
        Question::Absolute => absolute(path),
        Question::Relative => !absolute(path),
        Question::Unix => path.kind == PathKind::Unix,
        Question::Windows => path.kind == PathKind::Windows,
        Question::Normalized => normalized(path) == path.bytes,
    }
}

/// How many of `segments` are not a prefix.
pub open spec fn count_without_prefix(segments: Seq<SegmentView>) -> nat
    decreases segments.len(),
{
    if segments.len() == 0 {
        0
    } else if segments.last().kind == SegmentKind::Prefix {
        count_without_prefix(segments.drop_last())
    } else {
        count_without_prefix(segments.drop_last()) + 1
    }
}

/// How deep `path` lies: one less than the number of its segments, a prefix
/// not counted. A path without such a segment has no depth.
pub open spec fn depth_of(path: PathView) -> Option<nat> {
    let count = count_without_prefix(path_segments(path.bytes, path.windows()));
    if count == 0 {
        None
    } else {
        Some((count - 1) as nat)
    }
}

/// Resolves the `.` and `..` among `parts`.
fn resolve(parts: &Vec<Segment>) -> (r: Vec<Segment>)
    ensures
        segment_views(r@) == resolved(segment_views(parts@)),
{
    let ghost views = segment_views(parts@);
    let mut kept: Vec<Segment> = Vec::new();
    let mut i: usize = 0;
    assert(views.take(0) =~= Seq::<SegmentView>::empty());
    assert(segment_views(kept@) =~= Seq::<SegmentView>::empty());
    while i < parts.len()
        invariant
            i <= parts.len(),
            views == segment_views(parts@),
            segment_views(kept@) == resolved(views.take(i as int)),
        decreases parts.len() - i,
    {
        let ghost before = segment_views(kept@);
        let part = &parts[i];
        proof {
            assert(views.take(i + 1).drop_last() =~= views.take(i as int));
            assert(views.take(i + 1).last() == part@);
        }
        match part.kind {
            SegmentKind::Current => {},
            SegmentKind::Parent => {
                let n = kept.len();
                if n > 0 && kept[n - 1].kind == SegmentKind::Normal {
                    assert(before.last() == kept@[n - 1]@);
                    kept.pop();
                    assert(segment_views(kept@) =~= before.drop_last());
                } else {
                    assert(n > 0 ==> before.last() == kept@[n - 1]@);
                    kept.push(Segment { kind: part.kind, bytes: to_vec(part.bytes.as_slice()) });
                    assert(segment_views(kept@) =~= before.push(part@));
                }
            },
            _ => {
                kept.push(Segment { kind: part.kind, bytes: to_vec(part.bytes.as_slice()) });
                assert(segment_views(kept@) =~= before.push(part@));
            },
        }
        i = i + 1;
    }
    assert(views.take(parts.len() as int) =~= views);
    kept
}

/// Joins `parts` one by one, beginning with the empty path.
fn serialize(parts: &Vec<Segment>, kind: PathKind) -> (r: Vec<u8>)
    ensures
        r@ == serialized(segment_views(parts@), kind.windows()),
{
    let ghost plain = segment_bytes(segment_views(parts@));
    let mut path: Vec<u8> = Vec::new();
    let mut i: usize = 0;
    assert(plain.take(0) =~= Seq::<Seq<u8>>::empty());
    assert(path@ =~= Seq::<u8>::empty());
    while i < parts.len()
        invariant
            i <= parts.len(),
            plain == segment_bytes(segment_views(parts@)),
            path@ == join_all(Seq::empty(), kind.windows(), plain.take(i as int)),
        decreases parts.len() - i,
    {
        proof {
            assert(plain.take(i + 1).drop_last() =~= plain.take(i as int));
            assert(plain.take(i + 1).last() == parts@[i as int].bytes@);
        }
        path = join(path.as_slice(), kind, parts[i].bytes.as_slice());
        i = i + 1;
    }
    assert(plain.take(parts.len() as int) =~= plain);
    path
}

/// The normal form of `path`: its `.` segments removed, each `..` resolved
/// against the ordinary name before it, and the segments that are left
/// joined anew. A `..` with nothing to resolve against is kept.
pub fn normalize(path: &PathValue) -> (r: PathValue)
    ensures
        r@ == (PathView { bytes: normalized(path@), kind: path@.kind }),
{
    let parts = segments(path.bytes.as_slice(), path.kind);
    let kept = resolve(&parts);
    PathValue { bytes: serialize(&kept, path.kind), kind: path.kind }
}

/// Whether `path` is written in its normal form, byte for byte.
pub fn is_normalized(path: &PathValue) -> (r: bool)
    ensures
        r == (normalized(path@) == path@.bytes),
{
    let normal = normalize(path);
    bytes_equal(normal.bytes.as_slice(), path.bytes.as_slice())
}

/// The bytes that write `segment` in the dialect `target`.
fn write_in(segment: &Segment, target: PathKind) -> (r: Vec<u8>)
    ensures
        r@ == written_in(segment@, target.windows()),
{
    let mut bytes: Vec<u8> = Vec::new();
    match segment.kind {
        SegmentKind::Root => {
            match target {
                PathKind::Unix => bytes.push(SLASH),
                PathKind::Windows => bytes.push(BACKSLASH),
            }
            assert(bytes@ =~= written_in(segment@, target.windows()));
        },
        SegmentKind::Current => {
            bytes.push(DOT);
            assert(bytes@ =~= seq![DOT]);
        },
        SegmentKind::Parent => {
            bytes.push(DOT);
            bytes.push(DOT);
            assert(bytes@ =~= seq![DOT, DOT]);
        },
        _ => {
            bytes = to_vec(segment.bytes.as_slice());
        },
    }
    bytes
}

/// Writes `path` anew in the dialect `target`. Converting to the dialect that
/// the path has already changes nothing. Converting to the other dialect
/// parses the path and joins its segments under `target`, each written as
/// `target` writes it; on the way to Unix a Windows prefix is dropped.
pub fn convert(path: &PathValue, target: PathKind) -> (r: PathValue)
    ensures
        r@ == (PathView { bytes: converted(path@, target), kind: target }),
{
    let same = match (path.kind, target) {
        (PathKind::Unix, PathKind::Unix) => true,
        (PathKind::Windows, PathKind::Windows) => true,
        _ => false,
    };
    if same {
        return PathValue { bytes: to_vec(path.bytes.as_slice()), kind: target };
    }
    let parts = segments(path.bytes.as_slice(), path.kind);
    let ghost views = segment_views(parts@);
    let mut bytes: Vec<u8> = Vec::new();
    let mut i: usize = 0;
    assert(views.take(0) =~= Seq::<SegmentView>::empty());
    assert(bytes@ =~= Seq::<u8>::empty());
    while i < parts.len()
        invariant
            i <= parts.len(),
            views == segment_views(parts@),
            bytes@ == join_all(
                Seq::empty(),
                target.windows(),
                carried_over(views.take(i as int), target.windows()),
            ),
        decreases parts.len() - i,
    {
        proof {
            assert(views.take(i + 1).drop_last() =~= views.take(i as int));
            assert(views.take(i + 1).last() == parts@[i as int]@);
        }
        let dropped = match (parts[i].kind, target) {
            (SegmentKind::Prefix, PathKind::Unix) => true,
            _ => false,
        };
        if !dropped {
            let part = write_in(&parts[i], target);
            let ghost before = carried_over(views.take(i as int), target.windows());
            assert(before.push(part@).drop_last() =~= before);
            bytes = join(bytes.as_slice(), target, part.as_slice());
        }
        i = i + 1;
    }
    assert(views.take(parts.len() as int) =~= views);
    PathValue { bytes, kind: target }
}

/// Whether a Windows path is absolute.
fn is_rooted(bytes: &[u8]) -> (r: bool)
    ensures
        r == rooted(bytes@),
{
    let parts = segments(bytes, PathKind::Windows);
    let ghost views = segment_views(parts@);
    if parts.len() >= 1 {
        assert(views[0] == parts@[0]@);
        match parts[0].kind {
            SegmentKind::Root => {
                return true;
            },
            _ => {},
        }
    }
    let root_behind = if parts.len() >= 2 {
        assert(views[1] == parts@[1]@);
        match parts[1].kind {
            SegmentKind::Root => true,
            _ => false,
        }
    } else {
        false
    };
    match first_prefix(bytes) {
        Some(Prefix::Unc(_, share)) => share.len() > 0,
        Some(Prefix::VerbatimUnc(_, share)) => share.len() > 0,
        Some(_) => root_behind,
        None => false,
    }
}

/// Whether `path` is absolute: a Unix path that begins with the separator, or
/// a Windows path that begins with the bare root, with a drive and the root,
/// or with a named network share.
pub fn is_absolute(path: &PathValue) -> (r: bool)
    ensures
        r == absolute(path@),
{
    match path.kind {
        PathKind::Unix => path.bytes.len() > 0 && path.bytes[0] == SLASH,
        PathKind::Windows => is_rooted(path.bytes.as_slice()),
    }
}

/// Answers the question `asked` for `path`.
pub fn question(asked: Question, path: &PathValue) -> (r: bool)
    ensures
        r == answer(asked, path@),
{
    match asked {
        Question::Absolute => is_absolute(path),
        Question::Relative => !is_absolute(path),
        Question::Unix => match path.kind {
            PathKind::Unix => true,
            PathKind::Windows => false,
        },
        Question::Windows => match path.kind {
            PathKind::Unix => false,
            PathKind::Windows => true,
        },
        Question::Normalized => is_normalized(path),
    }
}

/// How deep `path` lies, if it has a segment besides a prefix.
pub fn depth(path: &PathValue) -> (r: Option<usize>)
    ensures
        match r {
            Some(d) => depth_of(path@) == Some(d as nat),
            None => depth_of(path@) is None,
        },
{
    let parts = segments(path.bytes.as_slice(), path.kind);
    let ghost views = segment_views(parts@);
    let mut count: usize = 0;
    let mut i: usize = 0;
    assert(views.take(0) =~= Seq::<SegmentView>::empty());
    while i < parts.len()
        invariant
            i <= parts.len(),
            views == segment_views(parts@),
            count <= i,
            count == count_without_prefix(views.take(i as int)),
        decreases parts.len() - i,
    {
        proof {
            assert(views.take(i + 1).drop_last() =~= views.take(i as int));
            assert(views.take(i + 1).last() == parts@[i as int]@);
        }
        match parts[i].kind {
            SegmentKind::Prefix => {},
            _ => {
                count = count + 1;
            },
        }
        i = i + 1;
    }
    assert(views.take(parts.len() as int) =~= views);
    if count == 0 {
        None
    } else {
        Some(count - 1)
    }
}

} // verus!
