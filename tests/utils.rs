use ni_rs::args::{exclude, limit_text};

#[test]
fn exclude_it_works() {
    let result = exclude(&vec!["npm", "i", "-g", "axios"], "-g");
    assert_eq!(result, vec!["npm", "i", "axios"]);
}

#[test]
fn limit_text_it_works() {
    let result = limit_text("abcdefghijklmnopqrstuvwxyz", 3);
    assert_eq!(result, "abc…");
}

#[test]
fn exclude_removes_every_occurrence_and_keeps_order() {
    let result = exclude(&vec!["-g", "a", "-g", "b", "-gg", "-g"], "-g");
    assert_eq!(result, vec!["a", "b", "-gg"]);
}

#[test]
fn exclude_of_empty_list_is_empty() {
    let result = exclude(&vec![], "-g");
    assert!(result.is_empty());
}

#[test]
fn exclude_without_match_keeps_list() {
    let result = exclude(&vec!["x", "y"], "-g");
    assert_eq!(result, vec!["x", "y"]);
}

#[test]
fn limit_text_keeps_short_text() {
    assert_eq!(limit_text("abc", 3), "abc");
    assert_eq!(limit_text("", 0), "");
}

#[test]
fn limit_text_counts_bytes() {
    assert_eq!(limit_text("éa", 2), "é…");
    assert_eq!(limit_text("aé", 1), "a…");
    assert_eq!(limit_text("éa", 3), "éa");
}
