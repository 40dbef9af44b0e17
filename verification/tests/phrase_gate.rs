use vext_vault::phrase::{authorization_word_count, phrase_unlocks};

#[test]
fn counts_words_like_whitespace_splitting() {
    let samples = [
        "",
        "   ",
        "one",
        "one two three",
        "  leading and trailing  ",
        "tabs\tand\nnewlines\rmixed",
        "wide\u{3000}ideographic\u{2003}spaces",
        "non\u{a0}breaking",
        "a b c d e f g h i j k l",
    ];
    for s in samples {
        assert_eq!(authorization_word_count(s), s.split_whitespace().count(), "{s:?}");
    }
}

#[test]
fn exactly_twelve_words_unlock() {
    assert!(phrase_unlocks("alpha bravo charlie delta echo foxtrot golf hotel india juliet kilo lima"));
    assert!(phrase_unlocks("  alpha bravo charlie delta echo foxtrot golf hotel india juliet kilo lima  "));
    assert!(!phrase_unlocks("alpha bravo charlie delta echo foxtrot golf hotel india juliet kilo"));
    assert!(!phrase_unlocks("alpha bravo charlie delta echo foxtrot golf hotel india juliet kilo lima mike"));
    assert!(!phrase_unlocks(""));
}
