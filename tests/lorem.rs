use typing_practice::lorem::{practice_text, remove_occurrences};
use typing_practice::text::chars_of;

fn s(v: Vec<char>) -> String {
    v.into_iter().collect()
}

#[test]
fn strips_paragraph_tags_and_line_breaks() {
    let fetched = "<p>Lorem ipsum dolor.</p>\n<p>Sit amet.</p>\n";
    assert_eq!(s(practice_text(fetched)), "Lorem ipsum dolor.Sit amet.");
}

#[test]
fn removal_is_a_single_left_to_right_pass() {
    assert_eq!(s(practice_text("<<p>p>")), "<p>");
    let v: Vec<char> = "aaa".chars().collect();
    let pat: Vec<char> = "aa".chars().collect();
    assert_eq!(s(remove_occurrences(&v, &pat)), "a");
}

#[test]
fn text_without_markup_is_unchanged() {
    assert_eq!(s(practice_text("plain <b>text</b>")), "plain <b>text</b>");
    assert_eq!(s(practice_text("")), "");
}

#[test]
fn empty_pattern_removes_nothing() {
    let v: Vec<char> = "abc".chars().collect();
    assert_eq!(s(remove_occurrences(&v, &Vec::new())), "abc");
}

#[test]
fn chars_of_splits_code_points() {
    assert_eq!(chars_of("aé中"), vec!['a', 'é', '中']);
}
