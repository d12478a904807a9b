//! The parts of a path that can be addressed, and what each action does to
//! them.

use crate::bytes::{append, to_vec};
use crate::command::PathKind;
use crate::dialect::{
    after_disk, extended, extension, file_name, file_stem, first_prefix, join, joined, parent,
    path_file_name, path_parent, path_segments, renamed, segment_at, segment_count,
    segment_views, segments, windows_disk, with_extension, with_file_name, without_disk, Prefix,
    Segment,
};
use crate::name::{name_extension, name_stem, split_at_first_dot, split_file_at_dot, DOT};
use crate::path::{join_all, segment_bytes, PathValue, PathView};
use crate::token::{index_of_token, is_word, parse_index};
use crate::Action;
use vstd::prelude::*;
use vstd::string::StringSliceAdditionalSpecFns;

verus! {

/// The byte that ends a drive prefix.
pub const COLON: u8 = 58;

/// A part of a path that can be read, written or removed.
#[derive(Debug, Clone, Copy, PartialEq, Eq, Hash, Structural)]
pub enum Component {
    /// The bytes behind the last dot of the file name.
    Extension,
    /// The file name up to its last dot.
    Stem,
    /// The file name up to its first dot that is not the leading byte.
    Prefix,
    /// The final segment, where it is an ordinary name.
    Name,
    /// Everything before the final segment.
    Parent,
    /// The drive letter of a Windows path.
    Disk,
    /// The segment at a position: from the start where the number is not
    /// negative, from the end where it is (-1 is the last segment).
    Nth(isize),
}

/// The part that a fixed name stands for: `ext`, `stem`, `prefix`, `name`,
/// `parent` or `disk`.
pub open spec fn named_component(token: Seq<u8>) -> Option<Component> {
    if token == "ext".spec_bytes() {
        Some(Component::Extension)
    } else if token == "stem".spec_bytes() {
        Some(Component::Stem)
    } else if token == "prefix".spec_bytes() {
        Some(Component::Prefix)
    } else if token == "name".spec_bytes() {
        Some(Component::Name)
    } else if token == "parent".spec_bytes() {
        Some(Component::Parent)
    } else if token == "disk".spec_bytes() {
        Some(Component::Disk)
    } else {
        None
    }
}

/// The part that `token` selects: the position that a signed decimal number
/// writes, or else the part that a fixed name stands for.
pub open spec fn component_of_token(token: Seq<u8>) -> Option<Component> {
    match index_of_token(token) {
        Some(n) => Some(Component::Nth(n)),
        None => named_component(token),
    }
}

/// The part that a fixed name stands for.
fn component_of_name(token: &[u8]) -> (r: Option<Component>)
    ensures
        r == named_component(token@),
{
    if is_word(token, "ext") {
        Some(Component::Extension)
    } else if is_word(token, "stem") {
        Some(Component::Stem)
    } else if is_word(token, "prefix") {
        Some(Component::Prefix)
    } else if is_word(token, "name") {
        Some(Component::Name)
    } else if is_word(token, "parent") {
        Some(Component::Parent)
    } else if is_word(token, "disk") {
        Some(Component::Disk)
    } else {
        None
    }
}

/// Reads a word of the command line as the part of a path that it selects. A
/// word that is neither a signed decimal index nor one of the fixed names is
/// refused with the message `invalid component`.
pub fn arg_into_component(s: &str) -> (r: Result<Component, String>)
    ensures
        match r {
            Ok(component) => component_of_token(s.spec_bytes()) == Some(component),
            Err(message) => component_of_token(s.spec_bytes()) is None && message@
                == "invalid component"@,
        },
{
    let token = s.as_bytes();
    match parse_index(token) {
        Some(n) => Ok(Component::Nth(n)),
        None => match component_of_name(token) {
            Some(component) => Ok(component),
            None => Err("invalid component".to_owned()),
        },
    }
}

impl TryFrom<&str> for Component {
    type Error = ();

    /// Reads a word as the part of a path that it selects, as
    /// [`arg_into_component`] does.
    fn try_from(s: &str) -> (r: Result<Component, ()>) {
        match arg_into_component(s) {
            Ok(component) => Ok(component),
            Err(_) => Err(()),
        }
    }
}

impl vstd::std_specs::convert::TryFromSpecImpl<&str> for Component {
    open spec fn obeys_try_from_spec() -> bool {
        true
    }

    open spec fn try_from_spec(s: &str) -> Result<Component, ()> {
        match component_of_token(s.spec_bytes()) {
            Some(component) => Ok(component),
            None => Err(()),
        }
    }
}

/// The bytes of an optional byte string, empty where there is none.
pub open spec fn or_empty(bytes: Option<Seq<u8>>) -> Seq<u8> {
    match bytes {
        Some(b) => b,
        None => Seq::empty(),
    }
}

/// `head`, a dot, and `tail`.
pub open spec fn dotted(head: Seq<u8>, tail: Seq<u8>) -> Seq<u8> {
    head.push(DOT) + tail
}

/// The extension of a file name that may be missing.
pub open spec fn extension_of(name: Option<Seq<u8>>) -> Option<Seq<u8>> {
    match name {
        Some(n) => name_extension(n),
        None => None,
    }
}

/// What follows the file prefix in a file name that may be missing: the bytes
/// behind the first dot that is not the leading byte, or nothing.
pub open spec fn tail_of(name: Option<Seq<u8>>) -> Seq<u8> {
    match name {
        Some(n) => or_empty(split_at_first_dot(n).1),
        None => Seq::empty(),
    }
}

/// The position that the signed index `n` names among `count` segments: `n`
/// itself where it is not negative, `count + n` where that is not negative,
/// and none otherwise.
pub open spec fn nth_index(n: int, count: int) -> Option<int> {
    if n >= 0 {
        Some(n)
    } else if count + n >= 0 {
        Some(count + n)
    } else {
        None
    }
}

/// The path that `parts` make when the first is taken as a path and the
/// others are joined to it one by one, all read in the dialect told by
/// `windows`. No parts make the empty path.
pub open spec fn rebuilt(parts: Seq<Seq<u8>>, windows: bool) -> Seq<u8> {
    if parts.len() == 0 {
        Seq::empty()
    } else {
        join_all(parts[0], windows, parts.skip(1))
    }
}

/// `parts` with the part at `index` exchanged for `value`; unchanged where
/// there is no such part.
pub open spec fn substituted(parts: Seq<Seq<u8>>, index: int, value: Seq<u8>) -> Seq<Seq<u8>> {
    if 0 <= index < parts.len() {
        parts.update(index, value)
    } else {
        parts
    }
}

impl Component {
    /// What is read from `path` for this part, no bytes where the path
    /// lacks it. Extension, stem and file prefix are cut from the file name;
    /// name and parent are what the dialect reads as such; the disk is the
    /// drive letter of a Windows path, one byte; the n-th part is the bytes of
    /// the segment at the position that the index names.
    pub open spec fn spec_get(self, path: PathView) -> Seq<u8> {
        let name = path_file_name(path.bytes, path.windows());
        match self {
            Component::Extension => or_empty(extension_of(name)),
            Component::Stem => match name {
                Some(n) => name_stem(n),
                None => Seq::empty(),
            },
            Component::Prefix => match name {
                Some(n) => split_at_first_dot(n).0,
                None => Seq::empty(),
            },
            Component::Name => or_empty(name),
            Component::Parent => or_empty(path_parent(path.bytes, path.windows())),
            Component::Disk => if path.windows() {
                match windows_disk(path.bytes) {
                    Some(letter) => seq![letter],
                    None => Seq::empty(),
                }
            } else {
                Seq::empty()
            },
            Component::Nth(n) => {
                let parts = segment_bytes(path_segments(path.bytes, path.windows()));
                match nth_index(n as int, parts.len() as int) {
                    Some(i) => if i < parts.len() {
                        parts[i]
                    } else {
                        Seq::empty()
                    },
                    None => Seq::empty(),
                }
            },
        }
    }

    /// Whether `path` has this part: whether what is read from it is not
    /// empty.
    pub open spec fn spec_has(self, path: PathView) -> bool {
        self.spec_get(path).len() > 0
    }

    /// The bytes of `path` after `value` has been written as this part.
    ///
    /// - Extension: the extension of the file name is exchanged.
    /// - Stem: the file name becomes `value`, a dot and the old extension, or
    ///   `value` alone where there was no extension.
    /// - Prefix: the parent is joined with `value`, a dot and the old tail, or
    ///   with `value` alone where there was no tail; without a parent, `value`
    ///   is the path to which the tail is joined.
    /// - Name: the file name is exchanged.
    /// - Parent: `value` is the path to which the file name is joined.
    /// - Disk: a Windows path loses its drive prefix and, unless `value` is
    ///   empty, is joined to the first byte of `value` and a colon; a Unix
    ///   path stays as it is.
    /// - Nth: at the position just behind the last segment `value` is joined
    ///   to the path; at a position that the index cannot name the path stays
    ///   as it is; at any other the path is rebuilt from its segments in its
    ///   own dialect, with `value` in place of the one at the position.
    pub open spec fn spec_set(self, path: PathView, value: Seq<u8>) -> Seq<u8> {
        let w = path.windows();
        let name = path_file_name(path.bytes, w);
        match self {
            Component::Extension => extended(path.bytes, w, value),
            Component::Stem => match extension_of(name) {
                Some(ext) => renamed(path.bytes, w, dotted(value, ext)),
                None => renamed(path.bytes, w, value),
            },
            Component::Prefix => match path_parent(path.bytes, w) {
                Some(dir) => if tail_of(name).len() > 0 {
                    joined(dir, w, dotted(value, tail_of(name)))
                } else {
                    joined(dir, w, value)
                },
                None => joined(value, w, tail_of(name)),
            },
            Component::Name => renamed(path.bytes, w, value),
            Component::Parent => joined(value, w, or_empty(name)),
            Component::Disk => if !w {
                path.bytes
            } else if value.len() == 0 {
                without_disk(path.bytes)
            } else {
                joined(seq![value[0], COLON], true, without_disk(path.bytes))
            },
            Component::Nth(n) => {
                let parts = segment_bytes(path_segments(path.bytes, w));
                match nth_index(n as int, parts.len() as int) {
                    Some(i) => if i == parts.len() {
                        joined(path.bytes, w, value)
                    } else {
                        rebuilt(substituted(parts, i, value), w)
                    },
                    None => path.bytes,
                }
            },
        }
    }

    /// The bytes of `path` after [`Component::replace`]: `value` is written
    /// where the path has the part, and nothing changes where it has not.
    pub open spec fn spec_replace(self, path: PathView, value: Seq<u8>) -> Seq<u8> {
        if self.spec_has(path) {
            self.spec_set(path, value)
        } else {
            path.bytes
        }
    }

    /// The bytes of `path` after this part has been removed.
    ///
    /// - Stem: the file name becomes a dot and the old extension, or empty
    ///   where there was no extension.
    /// - Prefix: the parent is joined with the old tail; a path without a
    ///   parent stays as it is.
    /// - Name: the file name becomes empty.
    /// - Extension, Parent, Disk, Nth: nothing is written in place of the
    ///   part where the path has it, and a path that lacks it stays as it is.
    pub open spec fn spec_delete(self, path: PathView) -> Seq<u8> {
        let w = path.windows();
        let name = path_file_name(path.bytes, w);
        match self {
            Component::Stem => match extension_of(name) {
                Some(ext) => renamed(path.bytes, w, dotted(Seq::empty(), ext)),
                None => renamed(path.bytes, w, Seq::empty()),
            },
            Component::Prefix => match path_parent(path.bytes, w) {
                Some(dir) => joined(dir, w, tail_of(name)),
                None => path.bytes,
            },
            Component::Name => renamed(path.bytes, w, Seq::empty()),
            _ => self.spec_replace(path, Seq::empty()),
        }
    }

    /// What `action` on this part of `path` gives: the part for a get, the
    /// bytes of the new path for the others.
    pub open spec fn spec_action(self, action: Action, path: PathView) -> Seq<u8> {
        match action {
            Action::Get => self.spec_get(path),
            Action::Put(value) => self.spec_set(path, value@),
            Action::Replace(value) => self.spec_replace(path, value@),
            Action::Delete => self.spec_delete(path),
        }
    }
}

/// Resolves the signed index `n` against `count` segments.
pub fn resolve_index(n: isize, count: usize) -> (r: Option<usize>)
    ensures
        match r {
            Some(i) => nth_index(n as int, count as int) == Some(i as int),
            None => nth_index(n as int, count as int) is None,
        },
{
    if n >= 0 {
        Some(n as usize)
    } else {
        let back: usize = (-(n + 1)) as usize;
        if back >= count {
            None
        } else {
            Some(count - 1 - back)
        }
    }
}

/// `head`, a dot, and `tail`, in one byte string.
fn dotted_name(head: &[u8], tail: &[u8]) -> (r: Vec<u8>)
    ensures
        r@ == dotted(head@, tail@),
{
    let mut name = to_vec(head);
    name.push(DOT);
    append(&mut name, tail);
    name
}

/// What follows the file prefix in the file name of a path.
fn tail_after_prefix(path: &PathValue) -> (r: Vec<u8>)
    ensures
        r@ == tail_of(path_file_name(path@.bytes, path@.windows())),
{
    match file_name(path.bytes.as_slice(), path.kind) {
        Some(name) => match split_file_at_dot(name.as_slice()).1 {
            Some(after) => to_vec(after),
            None => Vec::new(),
        },
        None => Vec::new(),
    }
}

/// Joins `parts` into one path of the dialect `kind`, with `value` in place
/// of the part at `index`.
fn rebuild(parts: &Vec<Segment>, kind: PathKind, index: usize, value: &[u8]) -> (r: Vec<u8>)
    ensures
        r@ == rebuilt(
            substituted(segment_bytes(segment_views(parts@)), index as int, value@),
            kind.windows(),
        ),
{
    let ghost plain = segment_bytes(segment_views(parts@));
    let ghost wanted = substituted(plain, index as int, value@);
    let count = parts.len();
    if count == 0 {
        return Vec::new();
    }
    let first: &[u8] = if index == 0 {
        value
    } else {
        parts[0].bytes.as_slice()
    };
    assert(first@ == wanted[0]);
    let mut path = to_vec(first);
    let mut i: usize = 1;
    assert(wanted.skip(1).take(0) =~= Seq::<Seq<u8>>::empty());
    while i < count
        invariant
            1 <= i <= count,
            count == parts@.len(),
            plain == segment_bytes(segment_views(parts@)),
            wanted == substituted(plain, index as int, value@),
            wanted.len() == count,
            path@ == join_all(wanted[0], kind.windows(), wanted.skip(1).take(i - 1)),
        decreases count - i,
    {
        let part: &[u8] = if i == index {
            value
        } else {
            parts[i].bytes.as_slice()
        };
        assert(part@ == wanted[i as int]);
        path = join(path.as_slice(), kind, part);
        proof {
            let done = wanted.skip(1).take(i as int);
            assert(done.drop_last() =~= wanted.skip(1).take(i - 1));
            assert(done.last() == wanted[i as int]);
        }
        i = i + 1;
    }
    assert(wanted.skip(1).take(count - 1) =~= wanted.skip(1));
    path
}

impl Component {
    /// Performs `action` on this part of `path` and returns the bytes that
    /// result: the part for [`Action::Get`], the new path for the others.
    pub fn action(self, action: &Action, path: &PathValue) -> (r: Vec<u8>)
        ensures
            r@ == self.spec_action(*action, path@),
    {
        match action {
            Action::Get => self.get(path),
            Action::Put(value) => self.set(path, value),
            Action::Replace(value) => self.replace(path, value),
            Action::Delete => self.delete(path),
        }
    }

    /// Reads this part of `path`. A part that the path does not have reads as
    /// no bytes at all.
    pub fn get(self, path: &PathValue) -> (r: Vec<u8>)
        ensures
            r@ == self.spec_get(path@),
    {
        let bytes = path.bytes.as_slice();
        let empty: Vec<u8> = Vec::new();
        match self {
            Component::Extension => match extension(bytes, path.kind) {
                Some(ext) => ext,
                None => empty,
            },
            Component::Stem => match file_stem(bytes, path.kind) {
                Some(stem) => stem,
                None => empty,
            },
            Component::Prefix => match file_name(bytes, path.kind) {
                Some(name) => to_vec(split_file_at_dot(name.as_slice()).0),
                None => empty,
            },
            Component::Name => match file_name(bytes, path.kind) {
                Some(name) => name,
                None => empty,
            },
            Component::Parent => match parent(bytes, path.kind) {
                Some(dir) => dir,
                None => empty,
            },
            Component::Disk => match path.kind {
                PathKind::Unix => empty,
                PathKind::Windows => match first_prefix(bytes) {
                    Some(Prefix::Disk(letter)) => {
                        let mut disk = empty;
                        disk.push(letter);
                        assert(disk@ =~= seq![letter]);
                        disk
                    },
                    _ => empty,
                },
            },
            Component::Nth(n) => {
                let count = segment_count(bytes, path.kind);
                match resolve_index(n, count) {
                    Some(index) => match segment_at(bytes, path.kind, index) {
                        Some(part) => part,
                        None => empty,
                    },
                    None => empty,
                }
            },
        }
    }

    /// Whether `path` has this part.
    pub fn has(self, path: &PathValue) -> (r: bool)
        ensures
            r == self.spec_has(path@),
    {
        self.get(path).len() > 0
    }

    /// Writes `value` as this part of `path` and returns the new path.
    pub fn set(self, path: &PathValue, value: &[u8]) -> (r: Vec<u8>)
        ensures
            r@ == self.spec_set(path@, value@),
    {
        let bytes = path.bytes.as_slice();
        match self {
            Component::Extension => with_extension(bytes, path.kind, value),
            Component::Stem => match extension(bytes, path.kind) {
                Some(ext) => {
                    let name = dotted_name(value, ext.as_slice());
                    with_file_name(bytes, path.kind, name.as_slice())
                },
                None => with_file_name(bytes, path.kind, value),
            },
            Component::Prefix => {
                let after = tail_after_prefix(path);
                match parent(bytes, path.kind) {
                    Some(dir) => if after.len() > 0 {
                        let name = dotted_name(value, after.as_slice());
                        join(dir.as_slice(), path.kind, name.as_slice())
                    } else {
                        join(dir.as_slice(), path.kind, value)
                    },
                    None => join(value, path.kind, after.as_slice()),
                }
            },
            Component::Name => with_file_name(bytes, path.kind, value),
            Component::Parent => match file_name(bytes, path.kind) {
                Some(name) => join(value, path.kind, name.as_slice()),
                None => {
                    let empty: Vec<u8> = Vec::new();
                    join(value, path.kind, empty.as_slice())
                },
            },
            Component::Disk => match path.kind {
                PathKind::Unix => to_vec(bytes),
                PathKind::Windows => {
                    let rest = match first_prefix(bytes) {
                        Some(Prefix::Disk(_)) => after_disk(bytes),
                        _ => to_vec(bytes),
                    };
                    if value.len() == 0 {
                        rest
                    } else {
                        let mut disk: Vec<u8> = Vec::new();
                        disk.push(value[0]);
                        disk.push(COLON);
                        assert(disk@ =~= seq![value@[0], COLON]);
                        join(disk.as_slice(), PathKind::Windows, rest.as_slice())
                    }
                },
            },
            Component::Nth(n) => {
                let count = segment_count(bytes, path.kind);
                match resolve_index(n, count) {
                    Some(index) => if index == count {
                        join(bytes, path.kind, value)
                    } else {
                        let parts = segments(bytes, path.kind);
                        rebuild(&parts, path.kind, index, value)
                    },
                    None => to_vec(bytes),
                }
            },
        }
    }

    /// Writes `value` as this part of `path` where the path has the part, and
    /// returns the path unchanged where it has not.
    pub fn replace(self, path: &PathValue, value: &[u8]) -> (r: Vec<u8>)
        ensures
            r@ == self.spec_replace(path@, value@),
            !self.spec_has(path@) ==> r@ == path@.bytes,
            self.spec_has(path@) ==> r@ == self.spec_set(path@, value@),
    {
        if self.has(path) {
            self.set(path, value)
        } else {
            to_vec(path.bytes.as_slice())
        }
    }

    /// Removes this part from `path` and returns the new path.
    pub fn delete(&self, path: &PathValue) -> (r: Vec<u8>)
        ensures
            r@ == self.spec_delete(path@),
    {
        let bytes = path.bytes.as_slice();
        let empty: Vec<u8> = Vec::new();
        match self {
            Component::Stem => match extension(bytes, path.kind) {
                Some(ext) => {
                    let name = dotted_name(empty.as_slice(), ext.as_slice());
                    with_file_name(bytes, path.kind, name.as_slice())
                },
                None => with_file_name(bytes, path.kind, empty.as_slice()),
            },
            Component::Prefix => match parent(bytes, path.kind) {
                Some(dir) => {
                    let after = tail_after_prefix(path);
                    join(dir.as_slice(), path.kind, after.as_slice())
                },
                None => to_vec(bytes),
            },
            Component::Name => with_file_name(bytes, path.kind, empty.as_slice()),
            _ => self.replace(path, empty.as_slice()),
        }
    }
}

} // verus!
