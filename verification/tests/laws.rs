use pathmut::{is_normalized, parse, Component, ParseAs, PathValue};

const PARTS: [Component; 12] = [
    Component::Extension,
    Component::Stem,
    Component::Prefix,
    Component::Name,
    Component::Parent,
    Component::Disk,
    Component::Nth(0),
    Component::Nth(1),
    Component::Nth(3),
    Component::Nth(-1),
    Component::Nth(-2),
    Component::Nth(-9),
];

fn samples() -> Vec<PathValue> {
    let mut paths = Vec::new();
    for bytes in [
        "/my/path/file.txt", "my/path/file.tar.gz", "/", "", "file", ".profile", "a/..", "./a",
        "/my/path/", "a//b",
    ] {
        paths.push(parse(bytes.as_bytes(), ParseAs::Unix));
    }
    for bytes in [r"C:\my\path\file.txt", r"C:file.txt", r"\my\path", r"C:\", r"my\file.d", ""] {
        paths.push(parse(bytes.as_bytes(), ParseAs::Windows));
    }
    paths
}

#[test]
fn has_is_a_get_that_is_not_empty() {
    for path in samples() {
        for part in PARTS {
            assert_eq!(part.has(&path), !part.get(&path).is_empty(), "{:?} {:?}", part, path);
        }
    }
}

#[test]
fn replace_is_a_guarded_set() {
    for path in samples() {
        for part in PARTS {
            let replaced = part.replace(&path, b"new");
            if part.has(&path) {
                assert_eq!(replaced, part.set(&path, b"new"), "{:?} {:?}", part, path);
            } else {
                assert_eq!(replaced, path.bytes, "{:?} {:?}", part, path);
            }
        }
    }
}

#[test]
fn delete_of_an_absent_extension_leaves_none() {
    for path in samples() {
        if !Component::Extension.has(&path) {
            let left = Component::Extension.delete(&path);
            assert_eq!(left, path.bytes);
            assert!(!Component::Extension.has(&PathValue::new(&left, path.kind)));
        }
    }
}

#[test]
fn an_index_before_the_first_segment_finds_nothing() {
    for path in samples() {
        let before = Component::Nth(-(path.segments().len() as isize) - 1);
        assert_eq!(before.get(&path), b"");
        assert!(!before.has(&path));
        assert_eq!(before.set(&path, b"new"), path.bytes);
        assert_eq!(before.replace(&path, b"new"), path.bytes);
        assert_eq!(before.delete(&path), path.bytes);
    }
}

#[test]
fn an_index_behind_the_last_segment_finds_nothing() {
    for path in samples() {
        let count = path.segments().len() as isize;
        for behind in [Component::Nth(count), Component::Nth(count + 1)] {
            assert_eq!(behind.get(&path), b"");
            assert_eq!(behind.replace(&path, b"new"), path.bytes);
            assert_eq!(behind.delete(&path), path.bytes);
        }
    }
    let path = parse(b"/my/path", ParseAs::Unix);
    assert_eq!(Component::Nth(3).set(&path, b"new"), b"/my/path/new");
    assert_eq!(Component::Nth(3).set(&path, b"/new"), b"/new");
}

#[test]
fn a_unix_path_has_no_disk() {
    for bytes in ["/my/path", r"C:\my\path", "C:", ""] {
        let path = parse(bytes.as_bytes(), ParseAs::Unix);
        assert_eq!(Component::Disk.get(&path), b"");
        assert!(!Component::Disk.has(&path));
        assert_eq!(Component::Disk.set(&path, b"D"), path.bytes);
        assert_eq!(Component::Disk.replace(&path, b"D"), path.bytes);
        assert_eq!(Component::Disk.delete(&path), path.bytes);
    }
}

#[test]
fn nothing_can_be_taken_from_a_root() {
    let roots = [
        parse(b"/", ParseAs::Unix),
        parse(b"//", ParseAs::Unix),
        parse(b"/.", ParseAs::Unix),
        parse(b"\\", ParseAs::Windows),
        parse(b"C:\\", ParseAs::Windows),
        parse(b"", ParseAs::Unix),
    ];
    for path in roots {
        for part in &PARTS[..5] {
            assert_eq!(part.get(&path), b"", "{:?} {:?}", part, path);
            assert!(!part.has(&path), "{:?} {:?}", part, path);
            assert_eq!(part.delete(&path), path.bytes, "{:?} {:?}", part, path);
        }
    }
}

#[test]
fn deleting_a_segment_rebuilds_from_the_rest() {
    let path = parse(b"/my/path/file.txt", ParseAs::Unix);
    assert_eq!(Component::Nth(1).delete(&path), b"/path/file.txt");
    assert_eq!(Component::Nth(2).delete(&path), b"/my/file.txt");
    assert_eq!(Component::Nth(3).delete(&path), b"/my/path");
    assert_eq!(Component::Nth(-2).delete(&path), b"/my/file.txt");
    let path = parse(br"C:\my\path", ParseAs::Windows);
    assert_eq!(Component::Nth(2).delete(&path), br"C:\path");
    assert_eq!(Component::Nth(1).delete(&path), br"C:my\path");
}

#[test]
fn joining_nothing_changes_nothing() {
    for path in samples() {
        let count = path.segments().len() as isize;
        assert_eq!(Component::Nth(count).set(&path, b""), path.bytes);
        assert_eq!(Component::Parent.set(&PathValue::new(b"/", path.kind), &path.bytes), path.bytes);
    }
}

#[test]
fn setting_the_name_joins_it_to_the_parent() {
    for path in samples() {
        if Component::Name.has(&path) {
            let dir = PathValue::new(&Component::Parent.get(&path), path.kind);
            let count = dir.segments().len() as isize;
            let joined = Component::Nth(count).set(&dir, b"other.md");
            assert_eq!(Component::Name.set(&path, b"other.md"), joined, "{:?}", path);
        } else {
            let count = path.segments().len() as isize;
            let joined = Component::Nth(count).set(&path, b"other.md");
            assert_eq!(Component::Name.set(&path, b"other.md"), joined, "{:?}", path);
        }
    }
}

#[test]
fn a_normalized_unix_path_is_rebuilt_as_it_was() {
    for bytes in ["/my/path/file.txt", "my/path", "/", "../my", "a", ""] {
        let path = parse(bytes.as_bytes(), ParseAs::Unix);
        assert!(is_normalized(&path));
        assert_eq!(Component::Nth(isize::MAX).set(&path, b"unused"), path.bytes);
    }
}

#[test]
fn stem_and_extension_make_the_name() {
    for path in samples() {
        let name = Component::Name.get(&path);
        let stem = Component::Stem.get(&path);
        let ext = Component::Extension.get(&path);
        if Component::Extension.has(&path) {
            assert_eq!(name, [stem, b".".to_vec(), ext].concat());
        } else if !name.ends_with(b".") {
            assert_eq!(name, stem);
        }
    }
}
