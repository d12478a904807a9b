//! A path: its bytes and the dialect under which they are read.

use crate::bytes::to_vec;
use crate::command::PathKind;
use crate::dialect::{
    derive_is_windows, derives_windows, joined, path_segments, segment_views, segments, Segment,
    SegmentView,
};
use vstd::prelude::*;

verus! {

/// The bytes of a path together with the dialect that gives them meaning. The
/// bytes need not be valid text, and they are never read under the other
/// dialect.
#[derive(Debug, Clone, PartialEq, Eq)]
pub struct PathValue {
    pub bytes: Vec<u8>,
    pub kind: PathKind,
}

/// The mathematical value of a [`PathValue`].
pub struct PathView {
    pub bytes: Seq<u8>,
    pub kind: PathKind,
}

impl View for PathValue {
    type V = PathView;

    open spec fn view(&self) -> PathView {
        PathView { bytes: self.bytes@, kind: self.kind }
    }
}

impl PathView {
    /// Whether the path is read under the Windows dialect.
    pub open spec fn windows(self) -> bool {
        self.kind.windows()
    }
}

/// The bytes of each segment of a run.
pub open spec fn segment_bytes(segments: Seq<SegmentView>) -> Seq<Seq<u8>> {
    segments.map_values(|s: SegmentView| s.bytes)
}

/// `start` extended by each of `parts` in turn.
pub open spec fn join_all(start: Seq<u8>, windows: bool, parts: Seq<Seq<u8>>) -> Seq<u8>
    decreases parts.len(),
{
    if parts.len() == 0 {
        start
    } else {
        joined(join_all(start, windows, parts.drop_last()), windows, parts.last())
    }
}

/// How the dialect of a path is chosen when it is parsed.
#[derive(Debug, Clone, Copy, PartialEq, Eq, Structural)]
pub enum ParseAs {
    /// Take the dialect that the bytes suggest.
    Derive,
    /// Read the bytes as a Windows path.
    Windows,
    /// Read the bytes as a Unix path.
    Unix,
}

/// The dialect that the bytes of a path suggest.
pub open spec fn derived_kind(bytes: Seq<u8>) -> PathKind {
    if derives_windows(bytes) {
        PathKind::Windows
    } else {
        PathKind::Unix
    }
}

/// The dialect under which `bytes` are read on the hint `parse_as`.
pub open spec fn parsed_kind(bytes: Seq<u8>, parse_as: ParseAs) -> PathKind {
    match parse_as {
        ParseAs::Derive => derived_kind(bytes),
        ParseAs::Windows => PathKind::Windows,
        ParseAs::Unix => PathKind::Unix,
    }
}

impl PathValue {
    /// The path that reads `bytes` under the dialect `kind`.
    pub fn new(bytes: &[u8], kind: PathKind) -> (r: PathValue)
        ensures
            r@ == (PathView { bytes: bytes@, kind }),
    {
        PathValue { bytes: to_vec(bytes), kind }
    }

    /// The path that reads `bytes` under the Unix dialect.
    pub fn unix(bytes: &[u8]) -> (r: PathValue)
        ensures
            r@ == (PathView { bytes: bytes@, kind: PathKind::Unix }),
    {
        PathValue::new(bytes, PathKind::Unix)
    }

    /// The path that reads `bytes` under the Windows dialect.
    pub fn windows(bytes: &[u8]) -> (r: PathValue)
        ensures
            r@ == (PathView { bytes: bytes@, kind: PathKind::Windows }),
    {
        PathValue::new(bytes, PathKind::Windows)
    }

    /// The segments of this path, in order: a prefix where the dialect has
    /// one, the root marker, and the names between the separators.
    pub fn segments(&self) -> (r: Vec<Segment>)
        ensures
            segment_views(r@) == path_segments(self@.bytes, self@.windows()),
    {
        segments(self.bytes.as_slice(), self.kind)
    }

    /// The path that reads `bytes` under the dialect they suggest.
    pub fn derive(bytes: &[u8]) -> (r: PathValue)
        ensures
            r@ == (PathView { bytes: bytes@, kind: derived_kind(bytes@) }),
    {
        let kind = if derive_is_windows(bytes) {
            PathKind::Windows
        } else {
            PathKind::Unix
        };
        PathValue::new(bytes, kind)
    }
}

/// Parses `bytes` into a path. This never fails: `parse_as` fixes the dialect
/// or leaves it to be taken from the bytes, and the bytes are kept as they are.
pub fn parse(bytes: &[u8], parse_as: ParseAs) -> (r: PathValue)
    ensures
        r@ == (PathView { bytes: bytes@, kind: parsed_kind(bytes@, parse_as) }),
{
    match parse_as {
        ParseAs::Derive => PathValue::derive(bytes),
        ParseAs::Windows => PathValue::windows(bytes),
        ParseAs::Unix => PathValue::unix(bytes),
    }
}

} // verus!
