//! The two path dialects, as the `typed_path` crate reads and writes them.
//!
//! The contracts of the functions at the end of this file are taken on trust:
//! each of them calls into `typed_path`, and Verus does not look inside. The
//! crate's parsers decide where a path parts into segments, which of them is
//! its file name and its parent, and what two Windows paths joined look
//! like. What they return there is given a name, a function of the bytes and
//! the dialect alone, and the rest of the library is proved against those
//! names. Where the source of the crate shows a result in a few lines (how
//! Unix paths join, how a file name or an extension is exchanged, how a
//! dialect is derived, where a drive prefix ends), the contract states it.

use crate::command::PathKind;
use crate::name::{name_extension, name_stem, DOT};
use typed_path::{
    TypedComponent, TypedPath, UnixComponent, WindowsComponent, WindowsEncoding, WindowsPath,
    WindowsPrefix,
};
use vstd::prelude::*;

verus! {

/// What a segment of a parsed path is.
#[derive(Debug, Clone, Copy, PartialEq, Eq, Structural)]
pub enum SegmentKind {
    /// A Windows prefix, such as a drive or a network share.
    Prefix,
    /// The root marker.
    Root,
    /// The current directory, `.`.
    Current,
    /// The parent directory, `..`.
    Parent,
    /// An ordinary name.
    Normal,
}

/// One segment of a parsed path: its kind and the bytes it is written with.
#[derive(Debug, Clone, PartialEq, Eq)]
pub struct Segment {
    pub kind: SegmentKind,
    pub bytes: Vec<u8>,
}

/// The mathematical value of a [`Segment`].
pub struct SegmentView {
    pub kind: SegmentKind,
    pub bytes: Seq<u8>,
}

impl View for Segment {
    type V = SegmentView;

    open spec fn view(&self) -> SegmentView {
        SegmentView { kind: self.kind, bytes: self.bytes@ }
    }
}

/// The separator of the Unix dialect, which also writes its root.
pub const SLASH: u8 = 47;

/// The separator with which the Windows dialect writes its root.
pub const BACKSLASH: u8 = 92;

/// The prefix with which a Windows path begins, as the path crate tells the
/// kinds apart, each with what it holds.
#[derive(Debug, Clone, PartialEq, Eq)]
pub enum Prefix {
    /// `\\?\name`
    Verbatim(Vec<u8>),
    /// `\\?\UNC\server\share`
    VerbatimUnc(Vec<u8>, Vec<u8>),
    /// `\\?\C:`
    VerbatimDisk(u8),
    /// `\\.\device`
    DeviceNs(Vec<u8>),
    /// `\\server\share`
    Unc(Vec<u8>, Vec<u8>),
    /// `C:`
    Disk(u8),
}

/// The mathematical value of a [`Prefix`].
pub enum PrefixView {
    Verbatim(Seq<u8>),
    VerbatimUnc(Seq<u8>, Seq<u8>),
    VerbatimDisk(u8),
    DeviceNs(Seq<u8>),
    Unc(Seq<u8>, Seq<u8>),
    Disk(u8),
}

impl View for Prefix {
    type V = PrefixView;

    open spec fn view(&self) -> PrefixView {
        match self {
            Prefix::Verbatim(name) => PrefixView::Verbatim(name@),
            Prefix::VerbatimUnc(server, share) => PrefixView::VerbatimUnc(server@, share@),
            Prefix::VerbatimDisk(letter) => PrefixView::VerbatimDisk(*letter),
            Prefix::DeviceNs(device) => PrefixView::DeviceNs(device@),
            Prefix::Unc(server, share) => PrefixView::Unc(server@, share@),
            Prefix::Disk(letter) => PrefixView::Disk(*letter),
        }
    }
}

/// The value of an optional prefix.
pub open spec fn optional_prefix(prefix: Option<Prefix>) -> Option<PrefixView> {
    match prefix {
        Some(p) => Some(p@),
        None => None,
    }
}

/// The values of a run of segments.
pub open spec fn segment_views(segments: Seq<Segment>) -> Seq<SegmentView> {
    segments.map_values(|s: Segment| s@)
}

/// The value of an optional byte string.
pub open spec fn optional_bytes(bytes: Option<Vec<u8>>) -> Option<Seq<u8>> {
    match bytes {
        Some(b) => Some(b@),
        None => None,
    }
}

/// What `TypedPath::components` yields: the segments into which the path
/// parts, in order.
pub uninterp spec fn path_segments(bytes: Seq<u8>, windows: bool) -> Seq<SegmentView>;

/// What `TypedPath::file_name` returns: the final segment of the path, where
/// the crate reads one and reads it as an ordinary name.
pub uninterp spec fn path_file_name(bytes: Seq<u8>, windows: bool) -> Option<Seq<u8>>;

/// What `TypedPath::parent` returns: the path without its final segment,
/// where the crate reads one that is not the root.
pub uninterp spec fn path_parent(bytes: Seq<u8>, windows: bool) -> Option<Seq<u8>>;

/// What the Windows `TypedPath::join` returns where neither path is empty.
pub uninterp spec fn windows_join(base: Seq<u8>, tail: Seq<u8>) -> Seq<u8>;

/// What `TypedPath::with_extension` returns for an empty extension on a path
/// that has a file name: the bytes of the path up to the end of the stem of
/// its file name.
pub uninterp spec fn path_cut_at_stem(bytes: Seq<u8>, windows: bool) -> Seq<u8>;

/// The prefix that the first segment of a Windows path is, where it is one.
pub uninterp spec fn windows_prefix(bytes: Seq<u8>) -> Option<PrefixView>;

/// A Unix path `base` extended by a `tail` that is not empty: a tail that
/// begins with the separator takes the place of `base`; any other is
/// appended, behind a separator where `base` is not empty and does not end
/// in one.
pub open spec fn unix_join(base: Seq<u8>, tail: Seq<u8>) -> Seq<u8> {
    if tail[0] == SLASH {
        tail
    } else if base.len() > 0 && base.last() != SLASH {
        base.push(SLASH) + tail
    } else {
        base + tail
    }
}

/// The path `base` extended by the path `tail`. Joining the empty path
/// changes nothing, and a path joined to the empty path is that path.
pub open spec fn joined(base: Seq<u8>, windows: bool, tail: Seq<u8>) -> Seq<u8> {
    if tail.len() == 0 {
        base
    } else if !windows {
        unix_join(base, tail)
    } else if base.len() == 0 {
        tail
    } else {
        windows_join(base, tail)
    }
}

/// `bytes` cut down to its first `len` bytes; unchanged where it has no more
/// than that.
pub open spec fn truncated(bytes: Seq<u8>, len: nat) -> Seq<u8> {
    if len <= bytes.len() {
        bytes.take(len as int)
    } else {
        bytes
    }
}

/// The path with its file name exchanged for `name`: a path with a file name
/// is first cut down to the length of its parent, where it has one, and then
/// `name` is joined to what is left.
pub open spec fn renamed(bytes: Seq<u8>, windows: bool, name: Seq<u8>) -> Seq<u8> {
    match (path_file_name(bytes, windows), path_parent(bytes, windows)) {
        (Some(_), Some(dir)) => joined(truncated(bytes, dir.len()), windows, name),
        _ => joined(bytes, windows, name),
    }
}

/// The path with the extension of its file name exchanged for `ext`: a path
/// without a file name stays as it is; any other is cut at the end of the
/// stem of its file name, and a dot and `ext` are appended where `ext` is
/// not empty.
pub open spec fn extended(bytes: Seq<u8>, windows: bool, ext: Seq<u8>) -> Seq<u8> {
    if path_file_name(bytes, windows) is None {
        bytes
    } else if ext.len() == 0 {
        path_cut_at_stem(bytes, windows)
    } else {
        path_cut_at_stem(bytes, windows).push(DOT) + ext
    }
}

/// Whether bytes of unknown dialect are taken for a Windows path: they begin
/// with a backslash, or they begin with a prefix when read as a Windows
/// path.
pub open spec fn derives_windows(bytes: Seq<u8>) -> bool {
    ||| bytes.len() > 0 && bytes[0] == BACKSLASH
    ||| path_segments(bytes, true).len() > 0 && path_segments(bytes, true)[0].kind
        == SegmentKind::Prefix
}

/// The drive letter of a Windows path that begins with a drive prefix, the
/// plain `C:` and no other kind.
pub open spec fn windows_disk(bytes: Seq<u8>) -> Option<u8> {
    match windows_prefix(bytes) {
        Some(PrefixView::Disk(letter)) => Some(letter),
        _ => None,
    }
}

/// A Windows path without its drive prefix, where it begins with one: the
/// prefix is the first two bytes, the letter and the colon.
pub open spec fn without_disk(bytes: Seq<u8>) -> Seq<u8> {
    if windows_disk(bytes) is Some {
        bytes.skip(2)
    } else {
        bytes
    }
}

/// Calls `TypedPath::components` and hands out each component with the variant
/// it was parsed as and the bytes that its `as_bytes` gives. The contract names
/// the result and claims nothing else of it.
#[verifier::external_body]
pub(crate) fn segments(bytes: &[u8], kind: PathKind) -> (r: Vec<Segment>)
    ensures
        segment_views(r@) == path_segments(bytes@, kind.windows()),
{
    let path = match kind {
        PathKind::Unix => TypedPath::unix(bytes),
        PathKind::Windows => TypedPath::windows(bytes),
    };
    path.components().map(|c| Segment { bytes: c.as_bytes().to_vec(), kind: match c {
        TypedComponent::Windows(WindowsComponent::Prefix(_)) => SegmentKind::Prefix,
        TypedComponent::Unix(UnixComponent::RootDir) => SegmentKind::Root,
        TypedComponent::Windows(WindowsComponent::RootDir) => SegmentKind::Root,
        TypedComponent::Unix(UnixComponent::CurDir) => SegmentKind::Current,
        TypedComponent::Windows(WindowsComponent::CurDir) => SegmentKind::Current,
        TypedComponent::Unix(UnixComponent::ParentDir) => SegmentKind::Parent,
        TypedComponent::Windows(WindowsComponent::ParentDir) => SegmentKind::Parent,
        TypedComponent::Unix(UnixComponent::Normal(_)) => SegmentKind::Normal,
        TypedComponent::Windows(WindowsComponent::Normal(_)) => SegmentKind::Normal,
    } }).collect()
}

/// Counts what `TypedPath::components` yields, without collecting it. The
/// contract says that this is the number of the segments.
#[verifier::external_body]
pub(crate) fn segment_count(bytes: &[u8], kind: PathKind) -> (r: usize)
    ensures
        r == path_segments(bytes@, kind.windows()).len(),
{
    let path = match kind {
        PathKind::Unix => TypedPath::unix(bytes),
        PathKind::Windows => TypedPath::windows(bytes),
    };
    path.components().count()
}

/// Steps through what `TypedPath::components` yields up to the position
/// `index` and hands out the bytes that `as_bytes` gives for the component
/// there. The contract says that these are the bytes of the segment at that
/// position, and that there is none behind the last.
#[verifier::external_body]
pub(crate) fn segment_at(bytes: &[u8], kind: PathKind, index: usize) -> (r: Option<Vec<u8>>)
    ensures
        optional_bytes(r) == if index < path_segments(bytes@, kind.windows()).len() {
            Some(path_segments(bytes@, kind.windows())[index as int].bytes)
        } else {
            None
        },
{
    let path = match kind {
        PathKind::Unix => TypedPath::unix(bytes),
        PathKind::Windows => TypedPath::windows(bytes),
    };
    path.components().nth(index).map(|c| c.as_bytes().to_vec())
}

/// Calls `TypedPath::file_name`. The contract names the result and claims
/// nothing else of it.
#[verifier::external_body]
pub(crate) fn file_name(bytes: &[u8], kind: PathKind) -> (r: Option<Vec<u8>>)
    ensures
        optional_bytes(r) == path_file_name(bytes@, kind.windows()),
{
    let path = match kind {
        PathKind::Unix => TypedPath::unix(bytes),
        PathKind::Windows => TypedPath::windows(bytes),
    };
    path.file_name().map(|name| name.to_vec())
}

/// Calls `TypedPath::extension`. The crate splits the file name at its last
/// dot and returns what stands behind it; it returns nothing for a path
/// without a file name, for a name without a dot, for a name whose only dot
/// leads it, and for the name `..`.
#[verifier::external_body]
pub(crate) fn extension(bytes: &[u8], kind: PathKind) -> (r: Option<Vec<u8>>)
    ensures
        optional_bytes(r) == match path_file_name(bytes@, kind.windows()) {
            Some(name) => name_extension(name),
            None => None,
        },
{
    let path = match kind {
        PathKind::Unix => TypedPath::unix(bytes),
        PathKind::Windows => TypedPath::windows(bytes),
    };
    path.extension().map(|ext| ext.to_vec())
}

/// Calls `TypedPath::file_stem`. The crate splits the file name at its last
/// dot and returns what stands before it, or the whole file name where it
/// finds no extension to part from it.
#[verifier::external_body]
pub(crate) fn file_stem(bytes: &[u8], kind: PathKind) -> (r: Option<Vec<u8>>)
    ensures
        optional_bytes(r) == match path_file_name(bytes@, kind.windows()) {
            Some(name) => Some(name_stem(name)),
            None => None,
        },
{
    let path = match kind {
        PathKind::Unix => TypedPath::unix(bytes),
        PathKind::Windows => TypedPath::windows(bytes),
    };
    path.file_stem().map(|stem| stem.to_vec())
}

/// Calls `TypedPath::parent`. The contract names the result and claims
/// nothing else of it.
#[verifier::external_body]
pub(crate) fn parent(bytes: &[u8], kind: PathKind) -> (r: Option<Vec<u8>>)
    ensures
        optional_bytes(r) == path_parent(bytes@, kind.windows()),
{
    let path = match kind {
        PathKind::Unix => TypedPath::unix(bytes),
        PathKind::Windows => TypedPath::windows(bytes),
    };
    path.parent().map(|p| p.as_bytes().to_vec())
}

/// Calls `TypedPath::join`, which reads both paths in the dialect of `base`
/// and pushes `tail` onto a copy of `base`.
///
/// The `push` of either dialect returns at once where `tail` is empty. The
/// Unix `push` lets a tail that begins with the separator take the place of
/// `base`, and appends any other, behind a separator where `base` is not
/// empty and does not end in one. The Windows `push` appends to an empty
/// `base` without a separator, whichever of its cases applies, so that `tail`
/// comes back; what it returns where neither path is empty is named, and
/// nothing else is claimed of it.
#[verifier::external_body]
pub(crate) fn join(base: &[u8], kind: PathKind, tail: &[u8]) -> (r: Vec<u8>)
    ensures
        r@ == joined(base@, kind.windows(), tail@),
        kind.windows() && base@.len() > 0 && tail@.len() > 0 ==> r@ == windows_join(base@, tail@),
{
    let path = match kind {
        PathKind::Unix => TypedPath::unix(base),
        PathKind::Windows => TypedPath::windows(base),
    };
    path.join(tail).into_vec()
}

/// Calls `TypedPath::with_file_name`. The crate's `set_file_name` pops a path
/// that has a file name, which cuts its bytes down to the length of its
/// parent, and then pushes the new name, as `join` does.
#[verifier::external_body]
pub(crate) fn with_file_name(bytes: &[u8], kind: PathKind, name: &[u8]) -> (r: Vec<u8>)
    ensures
        r@ == renamed(bytes@, kind.windows(), name@),
{
    let path = match kind {
        PathKind::Unix => TypedPath::unix(bytes),
        PathKind::Windows => TypedPath::windows(bytes),
    };
    path.with_file_name(name).into_vec()
}

/// Calls `TypedPath::with_extension`. The crate's `set_extension` leaves a
/// path without a file name as it is. Any other it cuts at the end of the
/// stem of the file name, and then appends a dot and the extension unless
/// the extension is empty. Where the cut falls is not claimed: what is left
/// after it is named.
#[verifier::external_body]
pub(crate) fn with_extension(bytes: &[u8], kind: PathKind, extension: &[u8]) -> (r: Vec<u8>)
    ensures
        r@ == extended(bytes@, kind.windows(), extension@),
        path_file_name(bytes@, kind.windows()) is Some && extension@.len() == 0 ==> r@
            == path_cut_at_stem(bytes@, kind.windows()),
{
    let path = match kind {
        PathKind::Unix => TypedPath::unix(bytes),
        PathKind::Windows => TypedPath::windows(bytes),
    };
    path.with_extension(extension).into_vec()
}

/// Calls `TypedPath::derive` and tells which dialect it chose. The crate
/// takes the bytes for a Windows path where they begin with a backslash or
/// where its Windows parser finds a prefix in front, and for a Unix path
/// otherwise.
#[verifier::external_body]
pub(crate) fn derive_is_windows(bytes: &[u8]) -> (r: bool)
    ensures
        r == derives_windows(bytes@),
{
    TypedPath::derive(bytes).is_windows()
}

/// Takes the first of `WindowsPath::components` and, where it is a prefix,
/// hands out its kind as `WindowsPrefixComponent::kind` gives it, with what
/// the kind holds. The contract names the result and claims nothing else of
/// it.
#[verifier::external_body]
pub(crate) fn first_prefix(bytes: &[u8]) -> (r: Option<Prefix>)
    ensures
        optional_prefix(r) == windows_prefix(bytes@),
{
    match WindowsPath::new(bytes).components().next() {
        Some(WindowsComponent::Prefix(prefix)) => Some(match prefix.kind() {
            WindowsPrefix::Verbatim(a) => Prefix::Verbatim(a.to_vec()),
            WindowsPrefix::VerbatimUNC(a, b) => Prefix::VerbatimUnc(a.to_vec(), b.to_vec()),
            WindowsPrefix::VerbatimDisk(d) => Prefix::VerbatimDisk(d),
            WindowsPrefix::DeviceNS(a) => Prefix::DeviceNs(a.to_vec()),
            WindowsPrefix::UNC(a, b) => Prefix::Unc(a.to_vec(), b.to_vec()),
            WindowsPrefix::Disk(d) => Prefix::Disk(d),
        }),
        _ => None,
    }
}

/// Steps the iterator of `WindowsPath::components` once and calls its
/// `as_path`, which gives the bytes that are left to iterate. It is called
/// for a path whose first segment is a drive prefix: the crate parses that
/// prefix from one letter and a colon, and what is left are the bytes behind
/// those two.
#[verifier::external_body]
pub(crate) fn after_disk(bytes: &[u8]) -> (r: Vec<u8>)
    requires
        windows_disk(bytes@) is Some,
    ensures
        r@ == bytes@.skip(2),
{
    let mut parts = WindowsPath::new(bytes).components();
    parts.next();
    parts.as_path::<WindowsEncoding>().as_bytes().to_vec()
}

} // verus!
