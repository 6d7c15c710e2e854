use telegram_ai_analyzer::pages::order_page_images;

#[test]
fn page_images_are_filtered_and_sorted() {
    let names = vec![
        "temp/pdf_ocr/doc-10.png".to_string(),
        "temp/pdf_ocr/doc-2.png".to_string(),
        "temp/pdf_ocr/notes.txt".to_string(),
        "temp/pdf_ocr/doc-1.png".to_string(),
        "temp/pdf_ocr/autre-1.png".to_string(),
    ];
    let ordered = order_page_images(names, "doc");
    assert_eq!(
        ordered,
        vec![
            "temp/pdf_ocr/doc-1.png".to_string(),
            "temp/pdf_ocr/doc-10.png".to_string(),
            "temp/pdf_ocr/doc-2.png".to_string(),
        ]
    );
}

#[test]
fn no_matching_images_means_empty() {
    let names = vec!["a.txt".to_string(), "b.jpg".to_string()];
    assert!(order_page_images(names, "doc").is_empty());
}

#[test]
fn zero_padded_names_sort_in_page_order() {
    let names = vec![
        "doc-03.png".to_string(),
        "doc-01.png".to_string(),
        "doc-02.png".to_string(),
    ];
    let ordered = order_page_images(names, "doc");
    assert_eq!(
        ordered,
        vec![
            "doc-01.png".to_string(),
            "doc-02.png".to_string(),
            "doc-03.png".to_string(),
        ]
    );
}
