use write_pace::words::count_words;

/// Plain whitespace-separated words are counted one each.
#[test]
fn counts_whitespace_separated_words() {
    assert_eq!(count_words("one two three"), 3);
}

/// An empty text has no words.
#[test]
fn empty_text_has_no_words() {
    assert_eq!(count_words(""), 0);
}

/// Extra whitespace does not create words.
#[test]
fn whitespace_runs_collapse() {
    assert_eq!(count_words("  one \n two\tthree  "), 3);
    assert_eq!(count_words("   \n\t "), 0);
}

/// A double dash delimits words without being one.
#[test]
fn double_dash_delimits() {
    assert_eq!(count_words("well--known"), 2);
}
