use issue_sync::watchlist::parse_watch_list;

fn names(list: &[&str]) -> Vec<String> {
    list.iter().map(|s| s.to_string()).collect()
}

#[test]
fn splits_on_commas() {
    assert_eq!(parse_watch_list("bug,feature"), names(&["bug", "feature"]));
}

#[test]
fn trims_whitespace_around_names() {
    assert_eq!(
        parse_watch_list("  bug , feature\t,ui "),
        names(&["bug", "feature", "ui"])
    );
}

#[test]
fn drops_empty_pieces() {
    assert_eq!(parse_watch_list("bug,,feature,"), names(&["bug", "feature"]));
    assert_eq!(parse_watch_list(" , ,"), names(&[]));
}

#[test]
fn empty_string_denotes_no_labels() {
    assert_eq!(parse_watch_list(""), names(&[]));
}

#[test]
fn single_name_needs_no_comma() {
    assert_eq!(parse_watch_list("good first issue"), names(&["good first issue"]));
}

#[test]
fn keeps_inner_whitespace_and_case() {
    assert_eq!(
        parse_watch_list("Help Wanted, p1  p2"),
        names(&["Help Wanted", "p1  p2"])
    );
}
