use nextspeaker::{
    from_lines, ignore_non_candidates, max_name_chars, maybe_trim_history,
    non_blanks_nor_comments, tally_counts,
};

fn names(list: &[&str]) -> Vec<String> {
    list.iter().map(|s| s.to_string()).collect()
}

#[test]
fn blank_and_comment_lines_are_dropped() {
    let lines = names(&["alice", "", "# a comment", "bob", "#", ""]);
    assert_eq!(non_blanks_nor_comments(&lines), names(&["alice", "bob"]));
    assert_eq!(non_blanks_nor_comments(&vec![]), Vec::<String>::new());
}

#[test]
fn only_empty_lines_are_dropped_from_text_lines() {
    let lines = names(&["alice", "", "# kept here", "bob"]);
    assert_eq!(from_lines(&lines), names(&["alice", "# kept here", "bob"]));
}

#[test]
fn history_is_restricted_to_candidates() {
    let candidates = names(&["a", "b"]);
    let history = names(&["a", "x", "b", "b", "y", "a"]);
    assert_eq!(
        ignore_non_candidates(&candidates, &history),
        names(&["a", "b", "b", "a"])
    );
    assert_eq!(
        ignore_non_candidates(&vec![], &history),
        Vec::<String>::new()
    );
}

#[test]
fn tallies_count_each_selection() {
    let participants = names(&["a", "b", "c"]);
    let selections = names(&["a", "b", "a", "a"]);
    assert_eq!(tally_counts(&participants, &selections), vec![3, 1, 0]);
}

#[test]
fn shared_names_share_their_tally() {
    let participants = names(&["a", "a", "b"]);
    let selections = names(&["a", "b"]);
    assert_eq!(tally_counts(&participants, &selections), vec![1, 1, 1]);
}

#[test]
fn longest_name_width_is_reported() {
    assert_eq!(max_name_chars(&vec![]), None);
    assert_eq!(max_name_chars(&names(&["ab", "a", "abcd", "abc"])), Some(4));
    assert_eq!(max_name_chars(&names(&[""])), Some(0));
}

#[test]
fn trimming_off_returns_history_untouched() {
    let history = names(&["2024-01-01 alice", "nospace", ""]);
    assert_eq!(maybe_trim_history(&history, false), Ok(history.clone()));
}

#[test]
fn trimming_drops_the_leading_word() {
    let history = names(&["2024-01-01 alice", "t\tbob", "x  carol  d", "k "]);
    assert_eq!(
        maybe_trim_history(&history, true),
        Ok(names(&["alice", "bob", "carol  d", ""]))
    );
}

#[test]
fn trimming_handles_unicode_white_space() {
    let history = vec!["stamp\u{a0}dave".to_string(), "s\u{2003}\u{2003}eve".to_string()];
    assert_eq!(maybe_trim_history(&history, true), Ok(names(&["dave", "eve"])));
}

#[test]
fn untrimmable_lines_are_reported() {
    let err = maybe_trim_history(&names(&["ok line", "nospace", "also fine"]), true)
        .unwrap_err();
    assert_eq!(err.line, "nospace");
    let err = maybe_trim_history(&names(&[" leading space"]), true).unwrap_err();
    assert_eq!(err.line, " leading space");
    let err = maybe_trim_history(&names(&[""]), true).unwrap_err();
    assert_eq!(err.line, "");
}
