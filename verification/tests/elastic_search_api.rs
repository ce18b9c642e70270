use quickwit_control::elastic_search_api::holds_char;
use quickwit_control::elastic_search_api::name_of_trimmed;
use quickwit_control::elastic_search_api::single_index;
use quickwit_control::elastic_search_api::BODY_LENGTH_LIMIT;
use quickwit_control::elastic_search_api::CONTENT_LENGTH_LIMIT;

#[test]
fn body_limits() {
    assert_eq!(BODY_LENGTH_LIMIT, 1_000_000);
    assert_eq!(CONTENT_LENGTH_LIMIT, 10_485_760);
}

#[test]
fn one_index_is_read_without_the_whitespace_around_it() {
    assert_eq!(single_index("my-index").unwrap(), "my-index");
    assert_eq!(single_index("  my-index\t").unwrap(), "my-index");
    assert_eq!(single_index("\u{a0}my index\u{3000}\n").unwrap(), "my index");
}

#[test]
fn several_indexes_are_refused() {
    let refusal = single_index("a,b").unwrap_err();
    assert_eq!(
        refusal.0,
        "Searching only one index is supported for now. Got (`a,b`)"
    );
    let refusal = single_index(" , ").unwrap_err();
    assert_eq!(
        refusal.0,
        "Searching only one index is supported for now. Got (` , `)"
    );
}

#[test]
fn a_missing_name_is_refused() {
    assert_eq!(single_index("").unwrap_err().0, "Missing index name.");
    assert_eq!(single_index(" \t ").unwrap_err().0, "Missing index name.");
}

#[test]
fn characters_are_found() {
    assert!(holds_char("a,b", ','));
    assert!(holds_char(",", ','));
    assert!(!holds_char("", ','));
    assert!(!holds_char("ab", ','));
    assert!(holds_char("x\u{e9}", '\u{e9}'));
}

#[test]
fn a_trimmed_part_is_the_name_unless_empty() {
    assert_eq!(name_of_trimmed("my-index").unwrap(), "my-index");
    assert_eq!(name_of_trimmed(" kept as given ").unwrap(), " kept as given ");
    assert_eq!(name_of_trimmed("").unwrap_err().0, "Missing index name.");
}
