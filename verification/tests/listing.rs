use dir_server::listing::{
    collapse_slashes, display_path, href_base, render_items, url_path, DirEntry,
};

fn strings(items: &[&str]) -> Vec<String> {
    items.iter().map(|s| s.to_string()).collect()
}

fn entry(name: &str, is_file: bool, is_symlink: bool) -> DirEntry {
    DirEntry { name: name.to_string(), is_file, is_symlink }
}

#[test]
fn url_path_joins_decoded_segments() {
    assert_eq!(url_path(&strings(&["a", "b%20c"])), "a/b c");
    assert_eq!(url_path(&strings(&[""])), "");
    assert_eq!(url_path(&strings(&[])), "");
    assert_eq!(url_path(&strings(&["a", ""])), "a/");
    assert_eq!(url_path(&strings(&["a", "", "b"])), "a//b");
}

#[test]
fn url_path_shows_what_cannot_be_decoded_as_sent() {
    assert_eq!(url_path(&strings(&["a", "%zz"])), "a/%zz");
}

#[test]
fn display_path_of_root_is_one_slash() {
    assert_eq!(display_path(""), "/");
    assert_eq!(href_base("/"), "/");
}

#[test]
fn display_path_ends_in_one_slash() {
    assert_eq!(display_path("a/b"), "a/b/");
    assert_eq!(display_path("a/b/"), "a/b/");
    assert_eq!(display_path("a//b"), "a/b/");
    assert_eq!(href_base("a/b/"), "/a/b/");
    assert_eq!(href_base("/a/"), "/a/");
}

#[test]
fn slashes_collapse_pairwise_from_the_left() {
    assert_eq!(collapse_slashes("//"), "/");
    assert_eq!(collapse_slashes("///"), "//");
    assert_eq!(collapse_slashes("////"), "//");
    assert_eq!(collapse_slashes("a/b"), "a/b");
}

#[test]
fn every_visible_entry_gets_one_item() {
    let entries = vec![
        entry("a.txt", true, false),
        entry("sub", false, false),
        entry("link", false, true),
    ];
    assert_eq!(
        render_items("/docs/", &entries, true),
        "<li><a href=\"/docs/a.txt\">a.txt</a></li>\n\
         <li><a href=\"/docs/sub/\">sub/</a></li>\n\
         <li><a href=\"/docs/link/\">link/</a></li>\n"
    );
    assert_eq!(
        render_items("/docs/", &entries, false),
        "<li><a href=\"/docs/a.txt\">a.txt</a></li>\n\
         <li><a href=\"/docs/sub/\">sub/</a></li>\n"
    );
}

#[test]
fn an_empty_directory_has_no_items() {
    assert_eq!(render_items("/", &vec![], true), "");
    assert_eq!(render_items("/", &vec![entry("l", true, true)], false), "");
}
