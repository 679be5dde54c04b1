use hashrm::confirm::is_affirmative;

#[test]
fn lowercase_y_is_a_yes() {
    assert!(is_affirmative("y"));
}

#[test]
fn uppercase_y_is_a_yes() {
    assert!(is_affirmative("Y"));
}

#[test]
fn surrounding_white_space_is_ignored() {
    assert!(is_affirmative("y\n"));
    assert!(is_affirmative("  Y \r\n"));
    assert!(is_affirmative("\ty"));
    assert!(is_affirmative("\u{a0}y\u{3000}"));
}

#[test]
fn the_empty_answer_is_a_no() {
    assert!(!is_affirmative(""));
    assert!(!is_affirmative("\n"));
    assert!(!is_affirmative("   "));
}

#[test]
fn any_other_answer_is_a_no() {
    assert!(!is_affirmative("n"));
    assert!(!is_affirmative("N\n"));
    assert!(!is_affirmative("yes"));
    assert!(!is_affirmative("yy"));
    assert!(!is_affirmative("y y"));
    assert!(!is_affirmative("ok"));
    assert!(!is_affirmative("1"));
}

#[test]
fn the_answer_agrees_with_trimming_and_lowercasing() {
    let answers = [
        "y", "Y", " y", "y ", "\ty\n", "n", "", " ", "yes", "Yy", "y\u{85}", "\u{2003}Y\u{2028}",
        "\u{200b}y", "\u{ff59}", "\u{1680}y\u{205f}", "y\u{180e}",
    ];
    for answer in answers {
        assert_eq!(is_affirmative(answer), answer.trim().to_lowercase() == "y", "{:?}", answer);
    }
}
