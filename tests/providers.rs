use oakley::capture::RgbaFrame;
use oakley::llm::{
    first_line, generate, image_data_url, stub_card_from_image, stub_card_from_text, text_prompt,
    Params,
};
use oakley::ocr::{extract_text, extract_text_stub, tidy_text, LepTess};

#[test]
fn stand_in_model_answers_with_fixed_card() {
    let s = generate("anything", Params::default()).unwrap();
    assert_eq!(
        s,
        r#"{"front":"What is the capital of France?","back":"Paris","tags":["geography","europe"]}"#
    );
}

#[test]
fn prompt_wraps_text() {
    assert_eq!(text_prompt("photosynthesis"), "Create JSON flashcard from this text: photosynthesis");
}

#[test]
fn data_url_holds_base64_of_image() {
    assert_eq!(image_data_url(&[1, 2, 3]), "data:image/png;base64,AQID");
    assert_eq!(image_data_url(&[0xff]), "data:image/png;base64,/w==");
    assert_eq!(image_data_url(&[]), "data:image/png;base64,");
}

#[test]
fn first_line_of_text() {
    assert_eq!(first_line(""), None);
    assert_eq!(first_line("one\ntwo").as_deref(), Some("one"));
    assert_eq!(first_line("one\r\ntwo").as_deref(), Some("one"));
    assert_eq!(first_line("\nsecond").as_deref(), Some(""));
    assert_eq!(first_line("single").as_deref(), Some("single"));
    assert_eq!(first_line("one\r").as_deref(), Some("one\r"));
    assert_eq!(first_line("\r\nx").as_deref(), Some(""));
}

#[test]
fn stub_cards() {
    let c = stub_card_from_text("Mitochondria\nare organelles");
    assert_eq!(c.front, "What is the gist of: Mitochondria?");
    assert_eq!(c.back, "stub answer");
    assert_eq!(c.tags, vec!["stub"]);
    assert_eq!(stub_card_from_text("").front, "What is the gist of: text?");
    assert_eq!(stub_card_from_text("a\r").front, "What is the gist of: a\r?");
    let i = stub_card_from_image(&[1, 2]);
    assert_eq!(i.front, "stub front from image");
    assert_eq!(i.back, "stub back");
    assert_eq!(i.tags, vec!["stub"]);
}

#[test]
fn stand_in_ocr_engine() {
    let mut t = LepTess::new(None, "eng").unwrap();
    let before = t;
    t.set_image_from_mem(&[9, 8, 7]).unwrap();
    assert_eq!(t, before);
    assert_eq!(t.get_utf8_text().unwrap(), "Mock OCR text from Tesseract");
    let f = RgbaFrame { width: 1, height: 1, data: vec![0, 0, 0, 255] };
    assert_eq!(extract_text(&f).unwrap(), "Mock OCR text from Tesseract");
}

#[test]
fn simplest_stand_in_extractor() {
    let f = RgbaFrame { width: 1, height: 1, data: vec![0, 0, 0, 255] };
    assert_eq!(
        extract_text_stub(&f).unwrap(),
        "stub OCR text for testing with more content to process"
    );
}

#[test]
fn extracted_text_is_tidied() {
    assert_eq!(tidy_text("  line one\n\t"), "line one");
    assert_eq!(tidy_text(""), "");
}
