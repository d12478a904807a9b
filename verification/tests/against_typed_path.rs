use pathmut::{convert, is_absolute, normalize, parse, Component, ParseAs, PathKind, SegmentKind};
use typed_path::TypedPath;

/// Every byte string of at most `max` bytes over a small alphabet that holds
/// what the two dialects treat specially.
fn strings(max: usize) -> Vec<Vec<u8>> {
    let alphabet = [b'/', b'\\', b'.', b':', b'a', b'C', b'?'];
    let mut all: Vec<Vec<u8>> = vec![Vec::new()];
    let mut last: Vec<Vec<u8>> = vec![Vec::new()];
    for _ in 0..max {
        let mut next = Vec::new();
        for s in &last {
            for b in alphabet {
                let mut t = s.clone();
                t.push(b);
                next.push(t);
            }
        }
        all.extend(next.iter().cloned());
        last = next;
    }
    all
}

fn typed(bytes: &[u8], parse_as: ParseAs) -> TypedPath<'_> {
    match parse_as {
        ParseAs::Windows => TypedPath::windows(bytes),
        _ => TypedPath::unix(bytes),
    }
}

#[test]
fn parts_are_read_as_typed_path_reads_them() {
    for bytes in strings(5) {
        for parse_as in [ParseAs::Unix, ParseAs::Windows] {
            let path = parse(&bytes, parse_as);
            let theirs = typed(&bytes, parse_as);
            assert_eq!(Component::Name.get(&path), theirs.file_name().unwrap_or_default());
            assert_eq!(Component::Stem.get(&path), theirs.file_stem().unwrap_or_default());
            assert_eq!(Component::Extension.get(&path), theirs.extension().unwrap_or_default());
            assert_eq!(
                Component::Parent.get(&path),
                theirs.parent().map(|p| p.as_bytes().to_vec()).unwrap_or_default()
            );
            assert_eq!(Component::Name.set(&path, b"n.x"), theirs.with_file_name("n.x").into_vec());
            assert_eq!(Component::Name.set(&path, b""), theirs.with_file_name("").into_vec());
            assert_eq!(
                Component::Extension.set(&path, b"x"),
                theirs.with_extension("x").into_vec()
            );
            let parts: Vec<Vec<u8>> = path.segments().into_iter().map(|s| s.bytes).collect();
            let theirs_parts: Vec<Vec<u8>> =
                theirs.components().map(|c| c.as_bytes().to_vec()).collect();
            assert_eq!(parts, theirs_parts);
        }
    }
}

#[test]
fn derive_chooses_as_typed_path_chooses() {
    for bytes in strings(5) {
        let kind = parse(&bytes, ParseAs::Derive).kind;
        assert_eq!(kind == PathKind::Windows, TypedPath::derive(&bytes).is_windows());
    }
}

#[test]
fn the_name_is_the_last_segment() {
    for bytes in strings(5) {
        for parse_as in [ParseAs::Unix, ParseAs::Windows] {
            let path = parse(&bytes, parse_as);
            let last = path.segments().pop();
            let name = match last {
                Some(segment) if segment.kind == SegmentKind::Normal => segment.bytes,
                _ => Vec::new(),
            };
            assert_eq!(Component::Name.get(&path), name, "{:?}", path);
            assert_eq!(Component::Name.get(&path), Component::Nth(-1).get(&path).as_slice()
                [..name.len()].to_vec());
        }
    }
}

#[test]
fn normal_forms_differ_only_where_a_parent_is_kept() {
    for bytes in strings(5) {
        for parse_as in [ParseAs::Unix, ParseAs::Windows] {
            let path = parse(&bytes, parse_as);
            let ours = normalize(&path);
            let theirs = typed(&bytes, parse_as).normalize().into_vec();
            let keeps_parent =
                ours.segments().iter().any(|s| s.kind == SegmentKind::Parent);
            if !keeps_parent {
                assert_eq!(ours.bytes, theirs, "{:?}", path);
            }
        }
    }
}

#[test]
fn unix_paths_are_absolute_as_typed_path_has_it() {
    for bytes in strings(5) {
        let path = parse(&bytes, ParseAs::Unix);
        assert_eq!(is_absolute(&path), TypedPath::unix(&bytes).is_absolute());
        assert_eq!(is_absolute(&path), bytes.first() == Some(&b'/'));
    }
}

#[test]
fn windows_paths_are_absolute_as_typed_path_has_it_or_by_a_bare_root() {
    let mut paths = strings(5);
    for longer in [
        &br"\\server\share"[..], br"\\server\share\x", br"\\server", br"\\server\",
        br"\\?\C:\x", br"\\?\C:x", br"\\?\UNC\s\t", br"\\?\UNC\s", br"\\.\dev\x",
        br"\\?\name\x",
    ] {
        paths.push(longer.to_vec());
    }
    for bytes in paths {
        let path = parse(&bytes, ParseAs::Windows);
        let theirs = TypedPath::windows(&bytes).is_absolute();
        let bare_root = path.segments().first().map(|s| s.kind) == Some(SegmentKind::Root);
        assert_eq!(is_absolute(&path), theirs || bare_root, "{:?}", path);
        if bare_root {
            assert!(!theirs, "{:?}", path);
        }
    }
}

#[test]
fn a_normalized_path_is_rebuilt_as_it_was_by_writing_a_segment_back() {
    for bytes in strings(5) {
        for parse_as in [ParseAs::Unix, ParseAs::Windows] {
            let path = parse(&bytes, parse_as);
            if normalize(&path) != path {
                continue;
            }
            for i in 0..path.segments().len() {
                let at = Component::Nth(i as isize);
                assert_eq!(at.set(&path, &at.get(&path)), path.bytes, "{:?} {}", path, i);
            }
        }
    }
}

#[test]
fn conversions_differ_only_where_a_prefix_is_dropped() {
    for bytes in strings(5) {
        let unix = parse(&bytes, ParseAs::Unix);
        assert_eq!(
            convert(&unix, PathKind::Windows).bytes,
            TypedPath::unix(&bytes).with_windows_encoding().into_vec()
        );
        assert_eq!(convert(&unix, PathKind::Unix).bytes, bytes);
        let windows = parse(&bytes, ParseAs::Windows);
        assert_eq!(convert(&windows, PathKind::Windows).bytes, bytes);
        let has_prefix = windows.segments().iter().any(|s| s.kind == SegmentKind::Prefix);
        if !has_prefix {
            assert_eq!(
                convert(&windows, PathKind::Unix).bytes,
                TypedPath::windows(&bytes).with_unix_encoding().into_vec(),
                "{:?}",
                windows
            );
        }
    }
}

#[test]
fn a_plain_name_that_was_set_on_a_unix_path_is_read_back() {
    for bytes in strings(5) {
        let path = parse(&bytes, ParseAs::Unix);
        for name in [&b"n"[..], b"n.x", b".h", b"a.b.c", b"C:", b"\\"] {
            let changed = parse(&Component::Name.set(&path, name), ParseAs::Unix);
            assert_eq!(Component::Name.get(&changed), name, "{:?}", path);
        }
    }
}

#[test]
fn a_name_that_was_set_may_read_back_otherwise() {
    // a name with a separator in it: the last of its segments is read back
    let path = parse(b"/my/file", ParseAs::Unix);
    let changed = parse(&Component::Name.set(&path, b"a/b"), ParseAs::Unix);
    assert_eq!(changed.bytes, b"/my/a/b");
    assert_eq!(Component::Name.get(&changed), b"b");
    // no name at all: the parent's name is read back
    let changed = parse(&Component::Name.set(&path, b""), ParseAs::Unix);
    assert_eq!(changed.bytes, b"/my");
    assert_eq!(Component::Name.get(&changed), b"my");
    // a Windows root written with a slash: the new path is all prefix
    let path = parse(b"/", ParseAs::Windows);
    let changed = parse(&Component::Name.set(&path, b"n"), ParseAs::Windows);
    assert_eq!(changed.bytes, b"/\\n");
    assert_eq!(Component::Name.get(&changed), b"");
}

#[test]
fn a_deleted_extension_is_gone_unless_the_stem_held_another() {
    for bytes in strings(5) {
        for parse_as in [ParseAs::Unix, ParseAs::Windows] {
            let path = parse(&bytes, parse_as);
            let stem = Component::Stem.get(&path);
            let left = parse(&Component::Extension.delete(&path), parse_as);
            if Component::Extension.has(&left) {
                assert!(Component::Extension.has(&path), "{:?}", path);
                assert!(stem[1..].contains(&b'.'), "{:?}", path);
            }
        }
    }
}

#[test]
fn normalizing_a_unix_path_twice_changes_nothing() {
    for bytes in strings(6) {
        let once = normalize(&parse(&bytes, ParseAs::Unix));
        assert_eq!(normalize(&once), once, "{:?}", bytes);
    }
}

#[test]
fn unix_paths_join_by_the_stated_rule() {
    for base in strings(3) {
        for tail in strings(3) {
            let expected = if tail.is_empty() {
                base.clone()
            } else if tail[0] == b'/' {
                tail.clone()
            } else if !base.is_empty() && base[base.len() - 1] != b'/' {
                [base.clone(), b"/".to_vec(), tail.clone()].concat()
            } else {
                [base.clone(), tail.clone()].concat()
            };
            assert_eq!(TypedPath::unix(&base).join(&tail).into_vec(), expected);
            // writing the parent joins the old name to the new parent
            let named = parse(&tail, ParseAs::Unix);
            let name = Component::Name.get(&named);
            let joined = Component::Parent.set(&named, &base);
            assert_eq!(joined, TypedPath::unix(&base).join(&name).into_vec());
        }
    }
}

#[test]
fn a_path_joined_to_nothing_is_that_path() {
    for tail in strings(5) {
        for parse_as in [ParseAs::Unix, ParseAs::Windows] {
            let nothing = parse(b"", parse_as);
            assert_eq!(Component::Nth(0).set(&nothing, &tail), tail, "{:?}", parse_as);
            let path = parse(&tail, parse_as);
            let count = path.segments().len() as isize;
            assert_eq!(Component::Nth(count).set(&path, b""), tail);
        }
    }
}

#[test]
fn the_dialect_is_derived_from_a_backslash_or_a_prefix() {
    for bytes in strings(5) {
        let first = parse(&bytes, ParseAs::Windows).segments().first().map(|s| s.kind);
        let expected = bytes.first() == Some(&b'\\') || first == Some(SegmentKind::Prefix);
        assert_eq!(parse(&bytes, ParseAs::Derive).kind == PathKind::Windows, expected);
    }
}

#[test]
fn a_drive_is_two_bytes_in_front() {
    for bytes in strings(5) {
        let path = parse(&bytes, ParseAs::Windows);
        if Component::Disk.has(&path) {
            assert_eq!(bytes[1], b':');
            assert_eq!(Component::Disk.get(&path), [bytes[0].to_ascii_uppercase()]);
            assert_eq!(Component::Disk.delete(&path), bytes[2..]);
            assert_eq!(Component::Disk.set(&path, b""), bytes[2..]);
        } else {
            assert_eq!(Component::Disk.set(&path, b""), bytes);
        }
    }
    let verbatim = parse(br"\\?\C:\x", ParseAs::Windows);
    assert!(!Component::Disk.has(&verbatim));
    assert_eq!(Component::Disk.delete(&verbatim), br"\\?\C:\x");
}

#[test]
fn an_extension_is_written_behind_the_cut_at_the_stem() {
    for bytes in strings(5) {
        for parse_as in [ParseAs::Unix, ParseAs::Windows] {
            let path = parse(&bytes, parse_as);
            let cut = Component::Extension.set(&path, b"");
            let with = Component::Extension.set(&path, b"x.y");
            if Component::Name.has(&path) {
                assert_eq!(with, [cut.clone(), b".x.y".to_vec()].concat(), "{:?}", path);
                assert!(bytes.starts_with(&cut), "{:?}", path);
            } else {
                assert_eq!(cut, bytes);
                assert_eq!(with, bytes);
            }
        }
    }
}

#[test]
fn segments_are_counted_and_reached_without_collecting_them() {
    for bytes in strings(5) {
        for parse_as in [ParseAs::Unix, ParseAs::Windows] {
            let path = parse(&bytes, parse_as);
            let parts = path.segments();
            for (i, part) in parts.iter().enumerate() {
                assert_eq!(Component::Nth(i as isize).get(&path), part.bytes);
                assert_eq!(Component::Nth(i as isize - parts.len() as isize).get(&path), part.bytes);
            }
            assert_eq!(Component::Nth(parts.len() as isize).get(&path), b"");
            assert_eq!(Component::Nth(-(parts.len() as isize) - 1).get(&path), b"");
        }
    }
}
