use telegram_ai_analyzer::markdown::normalize_text;

#[test]
fn test_normalize_text() {
    let input = "Texte\n\n\n\nSuite";
    assert_eq!(normalize_text(input), "Texte\n\nSuite");
}

#[test]
fn normalize_empty_is_empty() {
    assert_eq!(normalize_text(""), "");
}

#[test]
fn normalize_strips_controls_keeps_tab_and_newline() {
    let input = "a\u{0}b\tc\u{7f}\nd\u{9c}";
    assert_eq!(normalize_text(input), "ab\tc\nd");
}

#[test]
fn normalize_output_never_holds_triple_newlines() {
    let inputs = [
        "a\n\n\n\n\n\nb",
        "\n\n\n",
        "x\n\n\ny\n\n\n\nz\n\n\n",
        "a\u{b}\n\n\u{c}\n\nb",
    ];
    for input in inputs {
        let out = normalize_text(input);
        assert!(!out.contains("\n\n\n"), "triple newline in {:?}", out);
    }
}

#[test]
fn normalize_is_idempotent() {
    let inputs = [
        "Texte\n\n\n\nSuite",
        "  du texte avec \u{1} bruit \n\n\n et des lignes  ",
        "\n\n\n\n",
        "déjà propre",
        "",
    ];
    for input in inputs {
        let once = normalize_text(input);
        let twice = normalize_text(&once);
        assert_eq!(once, twice, "not idempotent on {:?}", input);
    }
}

#[test]
fn normalize_trims_ends() {
    assert_eq!(normalize_text("  \n salut \n  "), "salut");
}
