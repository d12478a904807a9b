//! Reads and rewrites single parts of path strings (extension, stem, file
//! prefix, name, parent, drive letter, or the n-th segment) under the Unix or
//! the Windows path dialect, without touching a file system.
//!
//! A path is a string of bytes with a dialect ([`PathValue`]). A
//! [`Component`] selects a part of it and an [`Action`] says what to do with
//! that part; [`Component::action`] returns the bytes that result. Paths are
//! parsed and joined by the `typed_path` crate, behind the contracts of the
//! module [`dialect`]; everything else is proved against those contracts.

use vstd::prelude::*;

pub mod batch;
pub mod bytes;
pub mod classify;
pub mod command;
pub mod component;
pub mod dialect;
pub mod laws;
pub mod name;
pub mod path;
pub mod token;

pub use batch::{ask, has_part, parse_paths};
pub use classify::{convert, depth, is_absolute, is_normalized, normalize, question};
pub use command::{Command, PathKind, Question};
pub use component::{arg_into_component, resolve_index, Component};
pub use dialect::{Prefix, Segment, SegmentKind};
pub use name::split_file_at_dot;
pub use path::{parse, ParseAs, PathValue};

verus! {

/// What to do with the selected part of a path.
#[derive(Debug, Clone, Copy)]
pub enum Action<'a> {
    /// Read the part.
    Get,
    /// Write the part, whether it is present or not. The command line calls
    /// this `set`.
    Put(&'a [u8]),
    /// Remove the part.
    Delete,
    /// Write the part only where it is present.
    Replace(&'a [u8]),
}

} // verus!
