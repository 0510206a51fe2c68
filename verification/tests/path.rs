use dir_server::path::{path_components, resolve, ResolvedPath};

fn strings(items: &[&str]) -> Vec<String> {
    items.iter().map(|s| s.to_string()).collect()
}

#[test]
fn segments_become_components() {
    let path = resolve("/srv", &strings(&["a", "b%20c"]), &vec![]);
    assert_eq!(path.root, "/srv");
    assert_eq!(path.components, strings(&["a", "b c"]));
    assert!(!path.symlink);
    assert!(!path.url_err);
}

#[test]
fn empty_segments_add_nothing() {
    let path = resolve("/srv", &strings(&["", "a", "", "b", ""]), &vec![false, false, true]);
    assert_eq!(path.components, strings(&["a", "b"]));
    assert!(path.symlink);
    let root = resolve("/srv", &strings(&[""]), &vec![true]);
    assert_eq!(root.components, strings(&[]));
    assert!(!root.symlink);
}

#[test]
fn a_link_anywhere_on_the_path_is_seen() {
    let segments = strings(&["a", "b", "c"]);
    assert!(resolve("/srv", &segments, &vec![false, true, false, false]).symlink);
    assert!(resolve("/srv", &segments, &vec![false, false, true, false]).symlink);
    assert!(resolve("/srv", &segments, &vec![false, false, false, true]).symlink);
    assert!(!resolve("/srv", &segments, &vec![false, false, false, false]).symlink);
}

#[test]
fn the_hosted_directory_itself_is_not_looked_at() {
    assert!(!resolve("/srv", &strings(&["a"]), &vec![true, false]).symlink);
}

#[test]
fn links_that_were_not_looked_up_count_as_none() {
    assert!(!resolve("/srv", &strings(&["a", "b"]), &vec![]).symlink);
    assert!(!resolve("/srv", &strings(&["a", "b"]), &vec![false, false]).symlink);
    assert!(!resolve("/srv", &strings(&["a"]), &vec![false, false, true]).symlink);
}

#[test]
fn the_walk_goes_on_after_a_segment_that_cannot_be_decoded() {
    let path = resolve("/srv", &strings(&["a", "%zz", "b"]), &vec![false, false, true]);
    assert!(path.url_err);
    assert!(path.symlink);
    assert_eq!(path.components, strings(&["a", "b"]));
}

#[test]
fn a_failed_segment_looks_at_the_path_before_it() {
    let path = resolve("/srv", &strings(&["%ff"]), &vec![true]);
    assert!(path.url_err);
    assert!(path.symlink);
    assert_eq!(path.components, strings(&[]));
}

#[test]
fn components_do_not_depend_on_links() {
    let segments = strings(&["x", "%zz", "", "y%2Fz"]);
    assert_eq!(path_components(&segments), strings(&["x", "y/z"]));
    assert_eq!(
        resolve("/srv", &segments, &vec![true, true, true]).components,
        path_components(&segments)
    );
}

#[test]
fn a_walk_can_be_taken_step_by_step() {
    let mut path = ResolvedPath::new("/srv");
    assert_eq!(path.root, "/srv");
    assert!(path.components.is_empty());
    path.step("a", &vec![false, true]);
    path.step("", &vec![true, true, true]);
    path.step("b", &vec![]);
    assert_eq!(path.components, strings(&["a", "b"]));
    assert!(path.symlink);
    assert!(!path.url_err);
}
