//! Tests of the triage engine over in-memory documents built with lopdf.

use lopdf::content::Content;
use lopdf::content::Operation;
use lopdf::Dictionary;
use lopdf::Document;
use lopdf::Object;
use lopdf::Stream;
use lopdf::StringFormat;

use pdf_triage::triage::analyze_document;
use pdf_triage::triage::analyze_pdf;
use pdf_triage::triage::count_image_xobjects_on_page;
use pdf_triage::triage::get_pdf_metadata;

fn text_content(text: &str) -> Vec<u8> {
    let content = Content {
        operations: vec![
            Operation::new("BT", vec![]),
            Operation::new("Tf", vec!["F1".into(), Object::Integer(12)]),
            Operation::new("Td", vec![Object::Integer(50), Object::Integer(700)]),
            Operation::new("Tj", vec![Object::string_literal(text)]),
            Operation::new("ET", vec![]),
        ],
    };
    content.encode().unwrap()
}

fn image_stream() -> Stream {
    let mut dict = Dictionary::new();
    dict.set("Type", "XObject");
    dict.set("Subtype", "Image");
    dict.set("Width", Object::Integer(1));
    dict.set("Height", Object::Integer(1));
    Stream::new(dict, vec![0u8])
}

/// Builds a document with one page per entry of `page_texts`, each with
/// the given text and the given number of embedded images, and optionally
/// a title.
fn build_doc_texts(
    page_texts: &[Option<&str>],
    images_per_page: usize,
    title: Option<Object>,
) -> Document {
    let mut doc = Document::with_version("1.5");
    let pages_id = doc.new_object_id();
    let mut font = Dictionary::new();
    font.set("Type", "Font");
    font.set("Subtype", "Type1");
    font.set("BaseFont", "Courier");
    let font_id = doc.add_object(font);
    let num_pages = page_texts.len();
    let mut kids: Vec<Object> = Vec::new();
    for page_text in page_texts {
        let data = match page_text {
            Some(t) => text_content(t),
            None => Vec::new(),
        };
        let content_id = doc.add_object(Stream::new(Dictionary::new(), data));
        let mut resources = Dictionary::new();
        let mut fonts = Dictionary::new();
        fonts.set("F1", font_id);
        resources.set("Font", fonts);
        if images_per_page > 0 {
            let mut xobjects = Dictionary::new();
            for i in 0..images_per_page {
                let img_id = doc.add_object(image_stream());
                xobjects.set(format!("Im{}", i), img_id);
            }
            resources.set("XObject", xobjects);
        }
        let mut page = Dictionary::new();
        page.set("Type", "Page");
        page.set("Parent", pages_id);
        page.set("Contents", content_id);
        page.set("Resources", resources);
        let page_id = doc.add_object(page);
        kids.push(page_id.into());
    }
    let mut pages = Dictionary::new();
    pages.set("Type", "Pages");
    pages.set("Count", Object::Integer(num_pages as i64));
    pages.set("Kids", kids);
    doc.objects.insert(pages_id, Object::Dictionary(pages));
    let mut catalog = Dictionary::new();
    catalog.set("Type", "Catalog");
    catalog.set("Pages", pages_id);
    let catalog_id = doc.add_object(catalog);
    doc.trailer.set("Root", catalog_id);
    if let Some(t) = title {
        let mut info = Dictionary::new();
        info.set("Title", t);
        let info_id = doc.add_object(info);
        doc.trailer.set("Info", info_id);
    }
    doc
}

/// Builds a document of `num_pages` pages that all carry the same text.
fn build_doc(
    num_pages: usize,
    page_text: Option<&str>,
    images_per_page: usize,
    title: Option<Object>,
) -> Document {
    let texts: Vec<Option<&str>> = vec![page_text; num_pages];
    build_doc_texts(&texts, images_per_page, title)
}

#[test]
fn encrypted_document_forces_defaults() {
    let mut doc = build_doc(20, Some("plenty of text on every page"), 0, None);
    let enc_id = doc.add_object(Dictionary::new());
    doc.trailer.set("Encrypt", enc_id);
    let a = analyze_document(&doc);
    assert_eq!(a.num_pages, 20);
    assert!(a.is_encrypted);
    assert!(a.title.is_none());
    assert_eq!(a.sample_pages, 0);
    assert_eq!(a.extracted_char_count, 0);
    assert_eq!(a.empty_text_pages, 0);
    assert_eq!(a.image_xobject_count, 0);
    assert!(a.likely_scanned);
    assert_eq!(a.recommended_route, "ocr");
}

#[test]
fn one_page_scanned_document_routes_ocr() {
    let doc = build_doc(1, None, 1, None);
    let a = analyze_document(&doc);
    assert_eq!(a.num_pages, 1);
    assert!(!a.is_encrypted);
    assert_eq!(a.sample_pages, 1);
    assert_eq!(a.extracted_char_count, 0);
    assert_eq!(a.empty_text_pages, 1);
    assert_eq!(a.image_xobject_count, 1);
    assert!(a.likely_scanned);
    assert_eq!(a.recommended_route, "ocr");
}

#[test]
fn text_document_routes_fast() {
    let text = "a".repeat(500);
    let doc = build_doc(10, Some(&text), 0, None);
    let a = analyze_document(&doc);
    assert_eq!(a.num_pages, 10);
    assert_eq!(a.sample_pages, 3);
    assert_eq!(a.extracted_char_count, 1500);
    assert_eq!(a.empty_text_pages, 0);
    assert_eq!(a.image_xobject_count, 0);
    assert!(!a.likely_scanned);
    assert_eq!(a.recommended_route, "fast");
}

#[test]
fn text_with_images_routes_layout() {
    let text = "b".repeat(300);
    let doc = build_doc(5, Some(&text), 2, None);
    let a = analyze_document(&doc);
    assert_eq!(a.num_pages, 5);
    assert_eq!(a.sample_pages, 3);
    assert_eq!(a.extracted_char_count, 900);
    assert_eq!(a.empty_text_pages, 0);
    assert_eq!(a.image_xobject_count, 6);
    assert!(!a.likely_scanned);
    assert_eq!(a.recommended_route, "layout");
}

#[test]
fn zero_page_document_gets_zero_default() {
    let doc = build_doc(0, None, 0, None);
    let a = analyze_document(&doc);
    assert_eq!(a.num_pages, 0);
    assert!(!a.is_encrypted);
    assert_eq!(a.sample_pages, 0);
    assert!(a.likely_scanned);
    assert_eq!(a.recommended_route, "ocr");
}

#[test]
fn title_is_trimmed() {
    let doc = build_doc(
        1,
        Some("some page text for the body"),
        0,
        Some(Object::string_literal("  My Document  ")),
    );
    let a = analyze_document(&doc);
    assert_eq!(a.title, Some("My Document".to_string()));
}

#[test]
fn non_ascii_title_is_decoded_and_trimmed() {
    let doc = build_doc(
        1,
        None,
        0,
        Some(Object::String(
            " R\u{e9}sum\u{e9} ".as_bytes().to_vec(),
            StringFormat::Literal,
        )),
    );
    let a = analyze_document(&doc);
    assert_eq!(a.title, Some("R\u{e9}sum\u{e9}".to_string()));
}

#[test]
fn blank_title_is_none() {
    let doc = build_doc(1, None, 0, Some(Object::string_literal("   ")));
    let a = analyze_document(&doc);
    assert!(a.title.is_none());
}

#[test]
fn non_utf8_title_is_none() {
    let doc = build_doc(
        1,
        None,
        0,
        Some(Object::String(vec![0xff, 0xfe, 0x41], StringFormat::Literal)),
    );
    let a = analyze_document(&doc);
    assert!(a.title.is_none());
}

#[test]
fn non_string_title_is_none() {
    let doc = build_doc(1, None, 0, Some(Object::Integer(7)));
    let a = analyze_document(&doc);
    assert!(a.title.is_none());
}

#[test]
fn image_count_ignores_non_reference_entries() {
    let mut doc = build_doc(1, None, 0, None);
    let img_id = doc.add_object(image_stream());
    let mut form_dict = Dictionary::new();
    form_dict.set("Type", "XObject");
    form_dict.set("Subtype", "Form");
    let form_id = doc.add_object(Stream::new(form_dict, Vec::new()));
    let mut plain = Dictionary::new();
    plain.set("Subtype", "Image");
    let plain_id = doc.add_object(plain);
    let mut xobjects = Dictionary::new();
    // Counted: an indirect reference to an image stream.
    xobjects.set("Im0", img_id);
    // Ignored: a direct stream value, not an indirect reference.
    xobjects.set("Direct", Object::Stream(image_stream()));
    // Ignored: a reference that resolves to a dictionary, not a stream.
    xobjects.set("NotStream", plain_id);
    // Ignored: a referenced stream whose subtype is not an image.
    xobjects.set("Fm0", form_id);
    let mut resources = Dictionary::new();
    resources.set("XObject", xobjects);
    let resources_id = doc.add_object(resources);
    let pages = doc.get_pages();
    let page_id = pages[&1];
    doc.get_dictionary_mut(page_id)
        .unwrap()
        .set("Resources", resources_id);
    assert_eq!(count_image_xobjects_on_page(&doc, page_id), 1);
    let a = analyze_document(&doc);
    assert_eq!(a.image_xobject_count, 1);
}

#[test]
fn mostly_empty_pages_with_images_route_ocr() {
    // Pages 1, 2 and 3 are all sampled; only page 2 carries text, so two
    // of three sampled pages are empty and the ratio exceeds 3/5.
    let text = "c".repeat(300);
    let doc = build_doc_texts(&[None, Some(&text), None], 1, None);
    let a = analyze_document(&doc);
    assert_eq!(a.sample_pages, 3);
    assert_eq!(a.extracted_char_count, 300);
    assert_eq!(a.empty_text_pages, 2);
    assert_eq!(a.image_xobject_count, 3);
    assert!(a.likely_scanned);
    assert_eq!(a.recommended_route, "ocr");
}

#[test]
fn title_from_direct_info_dictionary() {
    let mut doc = build_doc(1, None, 0, None);
    let mut info = Dictionary::new();
    info.set("Title", Object::string_literal("Direct Title"));
    doc.trailer.set("Info", Object::Dictionary(info));
    let a = analyze_document(&doc);
    assert_eq!(a.title, Some("Direct Title".to_string()));
}

#[test]
fn xobject_dictionary_behind_reference_is_resolved() {
    let mut doc = build_doc(1, None, 0, None);
    let img_id = doc.add_object(image_stream());
    let mut xobjects = Dictionary::new();
    xobjects.set("Im0", img_id);
    let xobjects_id = doc.add_object(xobjects);
    let mut resources = Dictionary::new();
    resources.set("XObject", xobjects_id);
    let pages = doc.get_pages();
    let page_id = pages[&1];
    doc.get_dictionary_mut(page_id)
        .unwrap()
        .set("Resources", resources);
    assert_eq!(count_image_xobjects_on_page(&doc, page_id), 1);
}

#[test]
fn page_without_resources_counts_no_images() {
    let doc = build_doc(1, Some("some text"), 0, None);
    let pages = doc.get_pages();
    let page_id = pages[&1];
    assert_eq!(count_image_xobjects_on_page(&doc, page_id), 0);
}

#[test]
fn missing_file_returns_zero_default() {
    let a = analyze_pdf("/nonexistent/directory/missing.pdf");
    assert_eq!(a.num_pages, 0);
    assert!(a.title.is_none());
    assert!(!a.is_encrypted);
    assert_eq!(a.sample_pages, 0);
    assert_eq!(a.extracted_char_count, 0);
    assert_eq!(a.empty_text_pages, 0);
    assert_eq!(a.image_xobject_count, 0);
    assert!(a.likely_scanned);
    assert_eq!(a.recommended_route, "ocr");
}

#[test]
fn metadata_of_missing_file_is_empty() {
    let m = get_pdf_metadata("/nonexistent/directory/missing.pdf");
    assert_eq!(m.num_pages, 0);
    assert!(m.title.is_none());
}
