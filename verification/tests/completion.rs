use opqueue::completion::{
    collect_matches, completion_query, compute_matches, longest_common_prefix, starts_with,
};

fn strings(items: &[&str]) -> Vec<String> {
    items.iter().map(|s| s.to_string()).collect()
}

fn names(items: &[&str]) -> Vec<Option<String>> {
    items.iter().map(|s| Some(s.to_string())).collect()
}

#[test]
fn longest_common_prefix_of_nothing_is_empty() {
    assert_eq!(longest_common_prefix(&strings(&[])), "");
}

#[test]
fn longest_common_prefix_of_one_string_is_the_string() {
    assert_eq!(longest_common_prefix(&strings(&["abc"])), "abc");
}

#[test]
fn longest_common_prefix_stops_at_the_shortest_string() {
    assert_eq!(longest_common_prefix(&strings(&["abcX", "abcY", "ab"])), "ab");
}

#[test]
fn longest_common_prefix_may_be_empty() {
    assert_eq!(longest_common_prefix(&strings(&["abc", "xbc"])), "");
    assert_eq!(longest_common_prefix(&strings(&["abc", ""])), "");
}

#[test]
fn longest_common_prefix_compares_characters_not_bytes() {
    // 'é' and 'è' share their first byte in UTF-8
    assert_eq!(longest_common_prefix(&strings(&["caf\u{e9}", "caf\u{e8}"])), "caf");
    assert_eq!(longest_common_prefix(&strings(&["\u{e9}t\u{e9}", "\u{e9}tat"])), "\u{e9}t");
}

#[test]
fn longest_common_prefix_begins_every_string_and_cannot_be_longer() {
    let all = strings(&["/home/u/pic.bmp", "/home/u/pic2.bmp", "/home/u/picture.png"]);
    let prefix = longest_common_prefix(&all);
    assert_eq!(prefix, "/home/u/pic");
    for s in &all {
        assert!(s.starts_with(prefix.as_str()));
    }
    let longer = format!("{}{}", prefix, ".");
    assert!(!all.iter().all(|s| s.starts_with(longer.as_str())));
}

#[test]
fn compute_matches_needs_a_separator() {
    let listing = names(&["file"]);
    assert_eq!(compute_matches("file", Some(&listing)), None);
}

#[test]
fn compute_matches_needs_a_fragment() {
    let listing = names(&["file"]);
    assert_eq!(compute_matches("/tmp/", Some(&listing)), None);
}

#[test]
fn compute_matches_needs_a_listing() {
    assert_eq!(compute_matches("/tmp/foo", None), None);
}

#[test]
fn compute_matches_finds_both_files_that_begin_with_the_fragment() {
    let listing = names(&["foo.bmp", "bar.bmp", "foobar.txt", "fo"]);
    let found = compute_matches("/some/dir/foo", Some(&listing));
    let mut found = found.expect("the directory was listed");
    found.sort();
    assert_eq!(found, strings(&["/some/dir/foo.bmp", "/some/dir/foobar.txt"]));
    assert_eq!(longest_common_prefix(&found), "/some/dir/foo");
}

#[test]
fn compute_matches_keeps_the_order_of_the_listing() {
    let listing = names(&["b2", "a", "b1", "b3"]);
    assert_eq!(compute_matches("d/b", Some(&listing)), Some(strings(&["d/b2", "d/b1", "d/b3"])));
}

#[test]
fn compute_matches_is_case_sensitive() {
    let listing = names(&["Foo.bmp", "foo.bmp"]);
    assert_eq!(compute_matches("d/f", Some(&listing)), Some(strings(&["d/foo.bmp"])));
}

#[test]
fn compute_matches_may_find_nothing() {
    let listing = names(&["a", "b"]);
    assert_eq!(compute_matches("d/x", Some(&listing)), Some(strings(&[])));
}

#[test]
fn compute_matches_skips_entries_without_a_name() {
    let listing = vec![None, Some("foo".to_string()), None];
    assert_eq!(compute_matches("d/f", Some(&listing)), Some(strings(&["d/foo"])));
}

#[test]
fn compute_matches_splits_at_the_last_separator() {
    let listing = names(&["cat", "car"]);
    assert_eq!(
        compute_matches("/a/b/ca", Some(&listing)),
        Some(strings(&["/a/b/cat", "/a/b/car"]))
    );
    assert_eq!(compute_matches("/ca", Some(&listing)), Some(strings(&["/cat", "/car"])));
}

#[test]
fn completion_query_splits_directory_and_fragment() {
    let query = completion_query("/tmp/pictures/ho").expect("there is a fragment");
    assert_eq!(query.directory, "/tmp/pictures");
    assert_eq!(query.fragment, "ho");
    let query = completion_query("/x").expect("there is a fragment");
    assert_eq!(query.directory, "");
    assert_eq!(query.fragment, "x");
}

#[test]
fn completion_query_refuses_what_cannot_be_completed() {
    assert!(completion_query("").is_none());
    assert!(completion_query("name").is_none());
    assert!(completion_query("/").is_none());
    assert!(completion_query("dir/sub/").is_none());
}

#[test]
fn collect_matches_joins_directory_and_name() {
    let listing = names(&["one", "two", "three"]);
    assert_eq!(collect_matches("base", "t", &listing), strings(&["base/two", "base/three"]));
}

#[test]
fn starts_with_compares_from_the_first_character() {
    let name: Vec<char> = "foobar".chars().collect();
    let yes: Vec<char> = "foo".chars().collect();
    let no: Vec<char> = "oob".chars().collect();
    let longer: Vec<char> = "foobarx".chars().collect();
    let empty: Vec<char> = Vec::new();
    assert!(starts_with(&name, &yes));
    assert!(!starts_with(&name, &no));
    assert!(!starts_with(&name, &longer));
    assert!(starts_with(&name, &empty));
    assert!(starts_with(&name, &name));
}
