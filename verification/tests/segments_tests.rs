use transcriber::segments::join_segments;

fn some(text: &str) -> Option<String> {
    Some(text.to_string())
}

#[test]
fn no_segments_give_the_empty_text() {
    assert_eq!(join_segments(&Vec::new()), "");
}

#[test]
fn one_segment_gives_its_text() {
    assert_eq!(join_segments(&vec![some(" Hello.")]), " Hello.");
}

#[test]
fn segments_are_joined_in_index_order_without_separator() {
    let segments = vec![some(" The quick"), some(" brown fox"), some("."), some(" Done")];
    assert_eq!(join_segments(&segments), " The quick brown fox. Done");
}

#[test]
fn order_matters() {
    assert_eq!(join_segments(&vec![some("ab"), some("cd")]), "abcd");
    assert_eq!(join_segments(&vec![some("cd"), some("ab")]), "cdab");
}

#[test]
fn missing_segments_are_skipped() {
    let segments = vec![None, some("one"), None, None, some("two"), None];
    assert_eq!(join_segments(&segments), "onetwo");
}

#[test]
fn only_missing_segments_give_the_empty_text() {
    assert_eq!(join_segments(&vec![None, None, None]), "");
}

#[test]
fn empty_segments_add_nothing() {
    assert_eq!(join_segments(&vec![some(""), some("x"), some("")]), "x");
}

#[test]
fn text_beyond_ascii_is_kept_as_it_is() {
    let segments = vec![some("Grüße, "), None, some("世界"), some(" 🎙")];
    assert_eq!(join_segments(&segments), "Grüße, 世界 🎙");
}

#[test]
fn joining_two_runs_is_joining_each_and_appending() {
    let first = vec![some("a"), None, some("bc")];
    let second = vec![some("d"), some(""), None, some("ef")];
    let mut both = first.clone();
    both.extend(second.clone());
    let mut expected = join_segments(&first);
    expected.push_str(&join_segments(&second));
    assert_eq!(join_segments(&both), expected);
    assert_eq!(join_segments(&both), "abcdef");
}

#[test]
fn the_segments_are_left_untouched() {
    let segments = vec![some("x"), None];
    let _ = join_segments(&segments);
    assert_eq!(segments, vec![some("x"), None]);
}
