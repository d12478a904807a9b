use pathmut::{arg_into_component, parse, Action, Component, ParseAs};

fn set(value: &str, component: &str, path: &str) -> String {
    let component = arg_into_component(component).unwrap();
    let path = parse(path.as_bytes(), ParseAs::Derive);
    String::from_utf8_lossy(&component.action(&Action::Put(value.as_bytes()), &path)).into_owned()
}

#[test]
fn set_ext() {
    assert_eq!(set("sh", "ext", "/my/path/file.txt"), "/my/path/file.sh");
    assert_eq!(set("sh", "ext", "/my/path/file.tar.gz"), "/my/path/file.tar.sh");
    assert_eq!(set("sh", "ext", "/my/path/file"), "/my/path/file.sh");
}

#[test]
fn set_stem() {
    assert_eq!(set("main", "stem", "/my/path/file.txt"), "/my/path/main.txt");
    assert_eq!(set("main", "stem", "/my/path/file.tar.gz"), "/my/path/main.gz");
}

#[test]
fn set_prefix() {
    assert_eq!(set("main", "prefix", "/my/path/file.txt"), "/my/path/main.txt");
    assert_eq!(set("main", "prefix", "/my/path/file.tar.gz"), "/my/path/main.tar.gz");
}

#[test]
fn set_name() {
    assert_eq!(set("main", "name", "/my/path/file.txt"), "/my/path/main");
    assert_eq!(set("main", "name", "/my/path/"), "/my/main");
    assert_eq!(set("main", "name", "/my/path"), "/my/main");
}

#[test]
fn set_parent() {
    assert_eq!(set("new/dir", "parent", "/my/path/file.txt"), "new/dir/file.txt");
    assert_eq!(set("/", "parent", "my/path/file.txt"), "/file.txt");
    assert_eq!(set("new", "parent", "/my/path"), "new/path");
    assert_eq!(set("new", "parent", "file.txt"), "new/file.txt");
}

#[test]
fn set_nth_n1() {
    assert_eq!(set("new/dir", "-1", "/my/path/file.txt"), "/my/path/new/dir");
    assert_eq!(set("new/dir", "-1", "/my/path/file"), "/my/path/new/dir");
    assert_eq!(set("/", "-1", "my/path/file.txt"), "/");
}

#[test]
fn set_nth_0() {
    assert_eq!(set("new/dir", "0", "/my/path/file.txt"), "new/dir/my/path/file.txt");
    assert_eq!(set("new/dir", "0", "my/path/file.txt"), "new/dir/path/file.txt");
    assert_eq!(set("/", "0", "my/path/file.txt"), "/path/file.txt");
}

#[test]
fn set_nth_1() {
    assert_eq!(set("new/dir", "1", "/my/path/file.txt"), "/new/dir/path/file.txt");
    assert_eq!(set("new/dir", "1", "my/path/file.txt"), "my/new/dir/file.txt");
}

#[test]
fn root() {
    assert_eq!(set("/", "0", "my/path/file.txt"), "/path/file.txt");
    assert_eq!(set("/", "1", "my/path/file.txt"), "/file.txt");
    assert_eq!(set("/", "2", "my/path/file.txt"), "/");
    // the position just behind the last segment appends
    assert_eq!(set("/", "3", "my/path/file.txt"), "/");
}

#[test]
fn set_nth_at_the_count_appends() {
    assert_eq!(set("more", "3", "my/path/file.txt"), "my/path/file.txt/more");
    assert_eq!(set("more", "0", ""), "more");
    assert_eq!(set("more", "1", "/"), "/more");
}

#[test]
fn set_nth_behind_the_count_rebuilds_without_a_change() {
    assert_eq!(set("more", "4", "my/path/file.txt"), "my/path/file.txt");
    assert_eq!(set("more", "5", "my//path/./file.txt"), "my/path/file.txt");
    assert_eq!(set("more", "2", ""), "");
}

#[test]
fn set_nth_before_the_first_changes_nothing() {
    assert_eq!(set("more", "-4", "my/path/file.txt"), "my/path/file.txt");
    assert_eq!(set("more", "-9", "my//path"), "my//path");
}

#[test]
fn set_nth_keeps_the_dialect_of_the_path() {
    let path = parse(br"my\path\file.txt", ParseAs::Windows);
    assert_eq!(Component::Nth(0).set(&path, b"my"), br"my\path\file.txt");
    assert_eq!(Component::Nth(1).set(&path, b"other"), br"my\other\file.txt");
    assert_eq!(Component::Nth(0).set(&path, b"new"), br"new\path\file.txt");
    assert_eq!(Component::Nth(0).delete(&path), br"path\file.txt");
    assert_eq!(Component::Nth(-1).replace(&path, b"x"), br"my\path\x");
    let path = parse(br"C:\my", ParseAs::Unix);
    assert_eq!(Component::Nth(0).set(&path, br"C:\my"), br"C:\my");
    assert_eq!(Component::Nth(1).set(&path, b"x"), br"C:\my/x");
}

#[test]
fn set_disk() {
    assert_eq!(set("D", "disk", r"C:\my\path"), r"D:\my\path");
    assert_eq!(set("D", "disk", r"\my\path"), r"D:\my\path");
    assert_eq!(set("Dxyz", "disk", r"C:\my\path"), r"D:\my\path");
    assert_eq!(set("", "disk", r"C:\my\path"), r"\my\path");
    assert_eq!(set("", "disk", r"\my\path"), r"\my\path");
    assert_eq!(set("D", "disk", "/my/path"), "/my/path");
    let unix = parse(br"C:\my\path", ParseAs::Unix);
    assert_eq!(Component::Disk.set(&unix, b"D"), br"C:\my\path");
}

#[test]
fn set_stem_and_prefix_without_a_tail() {
    assert_eq!(set("main", "stem", "/my/path/file"), "/my/path/main");
    assert_eq!(set("main", "prefix", "/my/path/file"), "/my/path/main");
    assert_eq!(set("main", "prefix", "file.tar.gz"), "main.tar.gz");
    assert_eq!(set("main", "prefix", "/"), "main");
    assert_eq!(set("main", "stem", "/my/.profile"), "/my/main");
}

#[test]
fn set_name_then_get_name() {
    let path = parse(b"/my/path/file.txt", ParseAs::Unix);
    let changed = Component::Name.set(&path, b"other.md");
    let changed = parse(&changed, ParseAs::Unix);
    assert_eq!(Component::Name.get(&changed), b"other.md");
}

#[test]
fn delete_ext_then_has_ext() {
    let path = parse(b"/my/path/file.txt", ParseAs::Unix);
    let changed = Component::Extension.delete(&path);
    assert_eq!(changed, b"/my/path/file");
    assert!(!Component::Extension.has(&parse(&changed, ParseAs::Unix)));
}
