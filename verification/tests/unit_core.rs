//! Tests of the pure core: page sampling, classification, text reduction
//! and the option types.

use pdf_triage::analysis::PDFAnalysis;
use pdf_triage::classify::classify_signals;
use pdf_triage::parse_options::ParseFormats;
use pdf_triage::parse_options::ParseOptions;
use pdf_triage::sampler::get_sample_page_numbers;
use pdf_triage::text::chars_of;
use pdf_triage::text::non_whitespace_count;
use pdf_triage::text::string_from_chars;
use pdf_triage::text::trim_chars;

#[test]
fn sample_zero_pages_is_empty() {
    assert_eq!(get_sample_page_numbers(0), Vec::<u32>::new());
}

#[test]
fn sample_one_page() {
    assert_eq!(get_sample_page_numbers(1), vec![1]);
}

#[test]
fn sample_two_pages() {
    assert_eq!(get_sample_page_numbers(2), vec![1, 2]);
}

#[test]
fn sample_three_pages() {
    assert_eq!(get_sample_page_numbers(3), vec![1, 2, 3]);
}

#[test]
fn sample_four_pages() {
    assert_eq!(get_sample_page_numbers(4), vec![1, 3, 4]);
}

#[test]
fn sample_ten_pages() {
    assert_eq!(get_sample_page_numbers(10), vec![1, 6, 10]);
}

#[test]
fn samples_are_strictly_increasing_in_range() {
    for n in 1..200usize {
        let pages = get_sample_page_numbers(n);
        assert_eq!(pages.len(), n.min(3));
        for i in 0..pages.len() {
            assert!(1 <= pages[i] && pages[i] as usize <= n);
            if i > 0 {
                assert!(pages[i - 1] < pages[i]);
            }
        }
    }
}

#[test]
fn avg_exactly_200_routes_layout_not_ocr() {
    // 600 chars over 3 pages is an average of exactly 200 (integer
    // division); with an image present that is "layout", not "ocr".
    let (scanned, route) = classify_signals(3, 600, 0, 1);
    assert!(!scanned);
    assert_eq!(route, "layout");
}

#[test]
fn avg_just_below_200_routes_ocr() {
    let (scanned, route) = classify_signals(3, 599, 0, 1);
    assert!(scanned);
    assert_eq!(route, "ocr");
}

#[test]
fn text_rich_without_images_routes_fast() {
    let (scanned, route) = classify_signals(3, 1500, 0, 0);
    assert!(!scanned);
    assert_eq!(route, "fast");
}

#[test]
fn empty_ratio_above_threshold_with_image_routes_ocr() {
    // 2 of 3 pages empty is a ratio above 3/5.
    let (scanned, route) = classify_signals(3, 3000, 2, 5);
    assert!(scanned);
    assert_eq!(route, "ocr");
}

#[test]
fn empty_ratio_at_half_does_not_trigger() {
    let (scanned, route) = classify_signals(2, 1000, 1, 1);
    assert!(!scanned);
    assert_eq!(route, "layout");
}

#[test]
fn no_samples_and_no_images_routes_fast() {
    // The classifier alone never routes to "ocr" without a detected image,
    // even in the degenerate no-sample case.
    let (scanned, route) = classify_signals(0, 0, 0, 0);
    assert!(!scanned);
    assert_eq!(route, "fast");
}

#[test]
fn non_whitespace_count_ignores_whitespace() {
    assert_eq!(non_whitespace_count("a b\tc\nd "), 4);
    assert_eq!(non_whitespace_count(""), 0);
    assert_eq!(non_whitespace_count(" \t\r\n"), 0);
    assert_eq!(non_whitespace_count("hello"), 5);
}

#[test]
fn trim_removes_surrounding_whitespace() {
    let cs = chars_of("  My Document  ");
    let trimmed = trim_chars(&cs);
    assert_eq!(string_from_chars(&trimmed), "My Document");
}

#[test]
fn trim_of_blank_is_empty() {
    let cs = chars_of(" \t\n ");
    let trimmed = trim_chars(&cs);
    assert_eq!(trimmed.len(), 0);
}

#[test]
fn trim_keeps_inner_whitespace() {
    let cs = chars_of("\ta b\t");
    let trimmed = trim_chars(&cs);
    assert_eq!(string_from_chars(&trimmed), "a b");
}

#[test]
fn default_analysis_is_zero_page_ocr() {
    let a = PDFAnalysis::default();
    assert_eq!(a.num_pages, 0);
    assert!(a.title.is_none());
    assert!(!a.is_encrypted);
    assert_eq!(a.sample_pages, 0);
    assert_eq!(a.extracted_char_count, 0);
    assert_eq!(a.empty_text_pages, 0);
    assert_eq!(a.image_xobject_count, 0);
    assert!(a.likely_scanned);
    assert_eq!(a.recommended_route, "ocr");
}

#[test]
fn parse_options_default_is_all_unset() {
    let o = ParseOptions::default();
    assert!(o.formats.is_none());
    assert!(o.include_tags.is_none());
    assert!(o.exclude_tags.is_none());
    assert!(o.only_main_content.is_none());
    assert!(o.timeout.is_none());
    assert!(o.parsers.is_none());
    assert!(o.remove_base64_images.is_none());
}

#[test]
fn parse_formats_are_distinct() {
    assert_eq!(ParseFormats::Markdown, ParseFormats::Markdown.clone());
    assert_ne!(ParseFormats::Markdown, ParseFormats::HTML);
    assert_ne!(ParseFormats::RawHTML, ParseFormats::HTML);
    assert_ne!(ParseFormats::Links, ParseFormats::Images);
    assert_ne!(ParseFormats::Summary, ParseFormats::Json);
    assert_ne!(ParseFormats::Json, ParseFormats::Attributes);
}
