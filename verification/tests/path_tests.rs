//! Path cleaning and the path views.

use little_man_os::path::{Path, PathStr};

#[test]
fn clean_collapses_dot_dot_segments() {
    assert_eq!(Path::from("/a/b/../c").clean().as_str(), "/a/c");
}

#[test]
fn clean_ignores_excess_dot_dot_at_the_root() {
    assert_eq!(Path::from("./a/../../b").clean().as_str(), "/b");
    assert_eq!(Path::from("../../..").clean().as_str(), "");
}

#[test]
fn clean_drops_dot_and_blank_segments() {
    assert_eq!(Path::from("a//./b").clean().as_str(), "/a/b");
}

#[test]
fn file_extension_takes_the_last_dot_piece() {
    let p = Path::from("a/b.tar.gz");
    assert_eq!(p.as_path_str().file_extension().unwrap().as_str(), "gz");
}

#[test]
fn file_name_takes_the_last_component() {
    let p = Path::from("a/b/c.txt");
    assert_eq!(p.as_path_str().file_name().unwrap().as_str(), "c.txt");
}

#[test]
fn components_split_on_slashes() {
    let s = PathStr::new("a/b/c");
    let comps = s.components();
    let texts: Vec<&str> = comps.iter().map(|c| c.as_str()).collect();
    assert_eq!(texts, vec!["a", "b", "c"]);
}

#[test]
fn append_writes_a_slash_and_the_other_text() {
    let p = Path::from("bin").append(&Path::from("tool.run"));
    assert_eq!(p.as_str(), "bin/tool.run");
}

#[test]
fn add_extension_writes_a_dot_and_the_extension() {
    let p = Path::from("tool").add_extension("run");
    assert_eq!(p.as_str(), "tool.run");
}

#[test]
fn parent_drops_the_last_cleaned_segment() {
    // the leading slash of the cleaned path yields an empty first
    // component, which the rebuilt parent keeps
    let p = Path::from("/a/b/c");
    assert_eq!(p.parent().unwrap().as_str(), "//a/b");
    let q = Path::from("a/b/c");
    assert_eq!(q.parent().unwrap().as_str(), "//a/b");
}

#[test]
fn pop_splits_off_the_last_segment() {
    let mut p = Path::from("a/b/c");
    let last = p.pop().unwrap();
    assert_eq!(last.as_str(), "c");
    assert_eq!(p.as_str(), "//a/b");
}

#[test]
fn from_segments_writes_a_slash_before_each() {
    let segs = vec![String::from("a"), String::from("b")];
    assert_eq!(Path::from_segments(&segs).as_str(), "/a/b");
}
