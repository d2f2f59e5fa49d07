use virtual_world::VirtualPath;

#[test]
fn bare_name_is_rooted() {
    assert_eq!(VirtualPath::new("main.typ").as_rooted_str(), "/main.typ");
}

#[test]
fn rooted_path_stays_rooted() {
    assert_eq!(VirtualPath::new("/a/b.typ").as_rooted_str(), "/a/b.typ");
}

#[test]
fn dot_segments_are_dropped() {
    assert_eq!(VirtualPath::new("./a/./b").as_rooted_str(), "/a/b");
}

#[test]
fn empty_segments_are_dropped() {
    assert_eq!(VirtualPath::new("a//b///c").as_rooted_str(), "/a/b/c");
}

#[test]
fn dot_dot_removes_the_previous_segment() {
    assert_eq!(VirtualPath::new("a/x/../b").as_rooted_str(), "/a/b");
}

#[test]
fn dot_dot_cannot_escape_the_root() {
    assert_eq!(VirtualPath::new("../../a").as_rooted_str(), "/a");
    assert_eq!(VirtualPath::new("/..").as_rooted_str(), "/");
}

#[test]
fn empty_path_is_the_root() {
    assert_eq!(VirtualPath::new("").as_rooted_str(), "/");
    assert_eq!(VirtualPath::new("/").as_rooted_str(), "/");
}

#[test]
fn trailing_slash_is_ignored() {
    assert_eq!(VirtualPath::new("a/b/").as_rooted_str(), "/a/b");
}

#[test]
fn aliases_normalize_to_the_same_path() {
    let a = VirtualPath::new("main.typ");
    let b = VirtualPath::new("/sub/../main.typ");
    assert!(a.matches(&b));
    let c = VirtualPath::new("other.typ");
    assert!(!a.matches(&c));
}

#[test]
fn dotted_names_are_kept() {
    assert_eq!(VirtualPath::new("a/.hidden/..x").as_rooted_str(), "/a/.hidden/..x");
}
