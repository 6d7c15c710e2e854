use telegram_ai_analyzer::markdown::to_markdown;

#[test]
fn test_to_markdown_header() {
    let input = "Ceci est un titre\n\nUn paragraphe.";
    let output = to_markdown(input);
    assert!(output.contains("## Ceci est un titre"));
}

#[test]
fn to_markdown_keeps_list_items() {
    let input = "- premier point\n- second point";
    let output = to_markdown(input);
    assert_eq!(output, "- premier point\n- second point");
}

#[test]
fn to_markdown_line_ending_in_period_is_no_header() {
    let output = to_markdown("Une phrase.\n\nUne autre.");
    assert!(!output.contains("##"));
}

#[test]
fn to_markdown_numbered_list_is_no_header() {
    let output = to_markdown("1. point un\n2. point deux");
    assert_eq!(output, "1. point un\n2. point deux");
}

#[test]
fn to_markdown_header_needs_blank_line_before() {
    let input = "Un paragraphe qui continue\nPas un titre ici car collé";
    let output = to_markdown(input);
    // only the first line opens after a (virtual) blank line
    assert!(output.starts_with("## Un paragraphe qui continue"));
    assert!(!output.contains("## Pas un titre"));
}
