use pathmut::{arg_into_component, has_part, parse_paths, ParseAs};

fn has(component: &str, path: &str) -> bool {
    let component = arg_into_component(component).unwrap();
    let paths = parse_paths(&vec![path.as_bytes().to_vec()], false, ParseAs::Derive);
    has_part(component, false, &paths)
}

#[test]
fn has_ext() {
    assert!(has("ext", "/my/path/file.txt"));
    assert!(has("ext", "/my/path/file.tar.gz"));
    assert!(!has("ext", "/my/path/file"));
}

#[test]
fn has_stem() {
    assert!(has("stem", "/my/path/file.txt"));
    assert!(has("stem", "/my/path/file.tar.gz"));
    assert!(has("stem", "/my/path"));
    assert!(!has("stem", "/"));
}

#[test]
fn has_prefix() {
    assert!(has("prefix", "/my/path/file.txt"));
    assert!(has("prefix", "/my/path/file.tar.gz"));
    assert!(has("prefix", "/my/path"));
    assert!(!has("prefix", "/"));
}

#[test]
fn has_name() {
    assert!(has("name", "/my/path/file.txt"));
    assert!(has("name", "/my/path/dir"));
    assert!(!has("name", "/"));
}

#[test]
fn has_parent() {
    assert!(has("parent", "/my/path/file.txt"));
    assert!(has("parent", "/my/path/dir"));
    assert!(has("parent", "/my"));
    assert!(!has("parent", "/"));
}

#[test]
fn nth_n2() {
    assert!(!has("-2", "/"));
    assert!(has("-2", "/my/path/file.txt"));
}

#[test]
fn has_nth_n1() {
    assert!(has("-1", "/"));
    assert!(has("-1", "/my/path/file.txt"));
}

#[test]
fn has_nth_0() {
    assert!(has("0", "/"));
    assert!(has("0", "/my/path/file.txt"));
    assert!(has("0", "my/path/file.txt"));
}

#[test]
fn has_nth_1() {
    assert!(!has("1", "/"));
    assert!(has("1", "/my/path/file.txt"));
    assert!(has("1", "my/path/file.txt"));
}

#[test]
fn print() {
    assert_eq!(has("ext", "/path/to.txt"), true);
    assert_eq!(has("ext", "/path/to"), false);
}

#[test]
fn has_over_several_paths() {
    let ext = arg_into_component("ext").unwrap();
    let mixed = parse_paths(
        &vec![b"/a/file.txt".to_vec(), b"/a/file".to_vec()],
        false,
        ParseAs::Derive,
    );
    assert!(has_part(ext, false, &mixed));
    assert!(!has_part(ext, true, &mixed));
    let both = parse_paths(&vec![b"a.x".to_vec(), b"b.y".to_vec()], false, ParseAs::Derive);
    assert!(has_part(ext, true, &both));
    let none = parse_paths(&vec![b"a".to_vec(), b"b".to_vec()], false, ParseAs::Derive);
    assert!(!has_part(ext, false, &none));
    let no_paths = parse_paths(&vec![], false, ParseAs::Derive);
    assert!(has_part(ext, true, &no_paths));
    assert!(!has_part(ext, false, &no_paths));
}
