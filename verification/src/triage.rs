//! The triage engine: image-resource counting, title extraction, and the
//! orchestration that aggregates sampled signals into an analysis result.

use vstd::prelude::*;
use vstd::slice::slice_to_vec;

use crate::analysis::PDFAnalysis;
use crate::analysis::PDFMetadata;
use crate::analysis::analysis_wf;
use crate::classify::classify_signals;
use crate::docmodel::dict_at;
use crate::docmodel::dict_entry_of;
use crate::docmodel::dict_get;
use crate::docmodel::dict_of;
use crate::docmodel::dict_values;
use crate::docmodel::dict_values_of;
use crate::docmodel::doc_extract_page_text;
use crate::docmodel::doc_get_dictionary;
use crate::docmodel::doc_get_object;
use crate::docmodel::doc_is_encrypted;
use crate::docmodel::doc_page_ids;
use crate::docmodel::doc_trailer;
use crate::docmodel::encrypted_of;
use crate::docmodel::load_document;
use crate::docmodel::name_of;
use crate::docmodel::object_as_dict;
use crate::docmodel::object_as_name;
use crate::docmodel::object_as_reference;
use crate::docmodel::object_as_stream;
use crate::docmodel::object_at;
use crate::docmodel::object_string_bytes;
use crate::docmodel::page_ids_of;
use crate::docmodel::ref_of;
use crate::docmodel::stream_dict;
use crate::docmodel::stream_dict_of;
use crate::docmodel::stream_of;
use crate::docmodel::string_bytes_of;
use crate::docmodel::text_of;
use crate::docmodel::trailer_of;
use crate::sampler::get_sample_page_numbers;
use crate::sampler::lemma_sample_pages_valid;
use crate::sampler::sample_pages_spec;
use crate::text::chars_of;
use crate::text::is_ws;
use crate::text::non_ws_count_spec;
use crate::text::non_whitespace_count;
use crate::text::string_from_chars;
use crate::text::string_from_utf8;
use crate::text::trim_chars;
use crate::text::trim_spec;
use crate::text::utf8_chars;

verus! {

/// `n` clamped to the range of `i32` from above.
pub open spec fn clamp_i32(n: int) -> int {
    if n > i32::MAX as int {
        i32::MAX as int
    } else {
        n
    }
}

/// The non-whitespace character count that text extraction yields for one
/// page: zero when extraction fails.
pub open spec fn page_char_count_of(doc: lopdf::Document, page_number: u32) -> nat {
    match text_of(doc, page_number) {
        Some(t) => non_ws_count_spec(t),
        None => 0nat,
    }
}

/// The sum of per-page non-whitespace character counts over `pages`.
pub open spec fn sum_chars_of(doc: lopdf::Document, pages: Seq<u32>) -> nat
    decreases pages.len(),
{
    if pages.len() == 0 {
        0nat
    } else {
        sum_chars_of(doc, pages.drop_last()) + page_char_count_of(doc, pages.last())
    }
}

/// The number of pages in `pages` whose non-whitespace character count is
/// below 10, counting pages where extraction failed entirely.
pub open spec fn empty_pages_of(doc: lopdf::Document, pages: Seq<u32>) -> nat
    decreases pages.len(),
{
    if pages.len() == 0 {
        0nat
    } else {
        empty_pages_of(doc, pages.drop_last()) + if page_char_count_of(doc, pages.last()) < 10 {
            1nat
        } else {
            0nat
        }
    }
}

/// The dictionary an entry resolves to: the entry itself when it is a
/// direct dictionary, the dictionary stored under it when it is an
/// indirect reference, nothing for every other shape.
pub open spec fn resolved_dict_of(doc: lopdf::Document, object: lopdf::Object) -> Option<
    lopdf::Dictionary,
> {
    match dict_of(object) {
        Some(d) => Some(d),
        None => match ref_of(object) {
            Some(id) => dict_at(doc, id),
            None => None,
        },
    }
}

/// Whether an `XObject` entry counts as a directly embedded raster image:
/// an indirect reference that resolves to a stream whose `Subtype` is the
/// name `Image`.
pub open spec fn is_image_entry(doc: lopdf::Document, object: lopdf::Object) -> bool {
    match ref_of(object) {
        Some(id) => match object_at(doc, id) {
            Some(resolved) => match stream_of(resolved) {
                Some(stream) => match dict_entry_of(stream_dict_of(stream), "Subtype"@) {
                    Some(subtype) => match name_of(subtype) {
                        Some(bytes) => utf8_chars(bytes) == Some("Image"@),
                        None => false,
                    },
                    None => false,
                },
                None => false,
            },
            None => false,
        },
        None => false,
    }
}

/// The number of image entries among `entries`.
pub open spec fn image_count_of(doc: lopdf::Document, entries: Seq<lopdf::Object>) -> nat
    decreases entries.len(),
{
    if entries.len() == 0 {
        0nat
    } else {
        image_count_of(doc, entries.drop_last()) + if is_image_entry(doc, entries.last()) {
            1nat
        } else {
            0nat
        }
    }
}

/// No more image entries are counted than there are entries.
pub proof fn lemma_image_count_bounded(doc: lopdf::Document, entries: Seq<lopdf::Object>)
    ensures
        image_count_of(doc, entries) <= entries.len(),
    decreases entries.len(),
{
    if entries.len() > 0 {
        lemma_image_count_bounded(doc, entries.drop_last());
    }
}

/// The number of directly embedded raster images on one page: the image
/// entries of the page's `XObject` resource dictionary, where `Resources`
/// and `XObject` are each accepted as a direct dictionary or an indirect
/// reference to one; zero when anything on the way fails to resolve.
pub open spec fn page_image_count_of(doc: lopdf::Document, page_id: (u32, u16)) -> nat {
    match dict_at(doc, page_id) {
        Some(page) => match dict_entry_of(page, "Resources"@) {
            Some(resources_entry) => match resolved_dict_of(doc, resources_entry) {
                Some(resources) => match dict_entry_of(resources, "XObject"@) {
                    Some(xobject_entry) => match resolved_dict_of(doc, xobject_entry) {
                        Some(xobjects) => image_count_of(doc, dict_values_of(xobjects)),
                        None => 0nat,
                    },
                    None => 0nat,
                },
                None => 0nat,
            },
            None => 0nat,
        },
        None => 0nat,
    }
}

/// The images counted for a sampled page number: the count of the page
/// whose id sits at index `page_number - 1`, zero when that index is out
/// of the id table's range.
pub open spec fn page_image_at(doc: lopdf::Document, ids: Seq<(u32, u16)>, page_number: u32) -> nat {
    if 1 <= page_number && page_number - 1 < ids.len() {
        page_image_count_of(doc, ids[page_number - 1])
    } else {
        0nat
    }
}

/// The sum of per-page image counts over the sampled page numbers.
pub open spec fn sum_images_of(doc: lopdf::Document, ids: Seq<(u32, u16)>, pages: Seq<u32>) -> nat
    decreases pages.len(),
{
    if pages.len() == 0 {
        0nat
    } else {
        sum_images_of(doc, ids, pages.drop_last()) + page_image_at(doc, ids, pages.last())
    }
}

/// The document's title: the trailer's `Info` entry resolved to a
/// dictionary, its `Title` string decoded as UTF-8 and trimmed; nothing
/// when any step fails or the trimmed text is empty.
pub open spec fn title_of(doc: lopdf::Document) -> Option<Seq<char>> {
    match dict_entry_of(trailer_of(doc), "Info"@) {
        Some(info_entry) => match resolved_dict_of(doc, info_entry) {
            Some(info) => match dict_entry_of(info, "Title"@) {
                Some(title_entry) => match string_bytes_of(title_entry) {
                    Some(bytes) => match utf8_chars(bytes) {
                        Some(chars) => if trim_spec(chars).len() == 0 {
                            None
                        } else {
                            Some(trim_spec(chars))
                        },
                        None => None,
                    },
                    None => None,
                },
                None => None,
            },
            None => None,
        },
        None => None,
    }
}

fn usize_to_i32_clamped(n: usize) -> (r: i32)
    ensures
        r == clamp_i32(n as int),
        0 <= r,
{
    if n > i32::MAX as usize {
        i32::MAX
    } else {
        n as i32
    }
}

fn clamped_add_i32(a: i32, b: i32) -> (r: i32)
    requires
        0 <= a,
        0 <= b,
    ensures
        r == clamp_i32(a + b),
        0 <= r,
{
    if a <= i32::MAX - b {
        a + b
    } else {
        i32::MAX
    }
}

/// Resolve an entry to a dictionary: accept a direct dictionary value or an
/// indirect reference that resolves to a dictionary; any other shape fails.
pub fn resolve_to_dict<'a>(doc: &'a lopdf::Document, object: &'a lopdf::Object) -> (r: Option<
    &'a lopdf::Dictionary,
>)
    ensures
        (r is Some) == (resolved_dict_of(*doc, *object) is Some),
        r matches Some(d) ==> Some(*d) == resolved_dict_of(*doc, *object),
{
    match object_as_dict(object) {
        Some(dict) => Some(dict),
        None => match object_as_reference(object) {
            Some(id) => doc_get_dictionary(doc, id),
            None => None,
        },
    }
}

/// Decide whether one `XObject` entry is a directly referenced image.
fn entry_is_image(doc: &lopdf::Document, object: &lopdf::Object) -> (r: bool)
    ensures
        r == is_image_entry(*doc, *object),
{
    if let Some(id) = object_as_reference(object) {
        if let Some(resolved) = doc_get_object(doc, id) {
            if let Some(stream) = object_as_stream(resolved) {
                if let Some(subtype_entry) = dict_get(stream_dict(stream), "Subtype") {
                    if let Some(name) = object_as_name(subtype_entry) {
                        let name_bytes: Vec<u8> = slice_to_vec(name);
                        if let Some(name_string) = string_from_utf8(name_bytes) {
                            let image = "Image".to_owned();
                            return name_string.eq(&image);
                        }
                    }
                }
            }
        }
    }
    false
}

/// Count the directly referenced raster-image objects on one page. Entries
/// of any other shape, and any resolution failure on the way, count as
/// zero; the walk never recurses into nested form objects.
pub fn count_image_xobjects_on_page(doc: &lopdf::Document, page_id: (u32, u16)) -> (count: usize)
    ensures
        count == page_image_count_of(*doc, page_id),
{
    let page_dict = match doc_get_dictionary(doc, page_id) {
        Some(d) => d,
        None => return 0,
    };
    let resources_entry = match dict_get(page_dict, "Resources") {
        Some(o) => o,
        None => return 0,
    };
    let resources = match resolve_to_dict(doc, resources_entry) {
        Some(d) => d,
        None => return 0,
    };
    let xobject_entry = match dict_get(resources, "XObject") {
        Some(o) => o,
        None => return 0,
    };
    let xobjects = match resolve_to_dict(doc, xobject_entry) {
        Some(d) => d,
        None => return 0,
    };
    let entries = dict_values(xobjects);
    let ghost vals = dict_values_of(*xobjects);
    let mut count: usize = 0;
    let mut i: usize = 0;
    while i < entries.len()
        invariant
            i <= entries@.len(),
            count <= i,
            entries@.len() == vals.len(),
            forall|j: int| 0 <= j < entries@.len() ==> *(#[trigger] entries@[j]) == vals[j],
            count == image_count_of(*doc, vals.take(i as int)),
        decreases entries@.len() - i,
    {
        let object = entries[i];
        proof {
            assert(vals.take(i + 1).drop_last() =~= vals.take(i as int));
            assert(vals.take(i + 1).last() == vals[i as int]);
        }
        if entry_is_image(doc, object) {
            count = count + 1;
        }
        i = i + 1;
    }
    proof {
        assert(vals.take(vals.len() as int) =~= vals);
    }
    count
}

/// Resolve the document's title: the trailer's `Info` entry (direct or by
/// reference), its `Title` attribute decoded as UTF-8, trimmed; absent,
/// unresolvable, undecodable or blank titles all yield nothing.
pub fn extract_title(doc: &lopdf::Document) -> (r: Option<String>)
    ensures
        (r is Some) == (title_of(*doc) is Some),
        r matches Some(t) ==> Some(t@) == title_of(*doc),
        r matches Some(t) ==> (t@.len() > 0 && t@ == trim_spec(t@) && !is_ws(t@.first()) && !is_ws(
            t@.last(),
        )),
{
    let trailer = doc_trailer(doc);
    let info_entry = match dict_get(trailer, "Info") {
        Some(o) => o,
        None => return None,
    };
    let info = match resolve_to_dict(doc, info_entry) {
        Some(d) => d,
        None => return None,
    };
    let title_entry = match dict_get(info, "Title") {
        Some(o) => o,
        None => return None,
    };
    let bytes = match object_string_bytes(title_entry) {
        Some(b) => b,
        None => return None,
    };
    let decoded = match string_from_utf8(bytes) {
        Some(s) => s,
        None => return None,
    };
    let cs = chars_of(decoded.as_str());
    let trimmed = trim_chars(&cs);
    if trimmed.len() == 0 {
        return None;
    }
    let title = string_from_chars(&trimmed);
    proof {
        assert(trim_spec(title@) == title@);
    }
    Some(title)
}

/// Analyze one loaded document: encryption check, page sampling, text and
/// image signal aggregation, and classification.
pub fn analyze_document(doc: &lopdf::Document) -> (r: PDFAnalysis)
    ensures
        analysis_wf(r),
        r.is_encrypted == encrypted_of(*doc),
        r.num_pages == clamp_i32(page_ids_of(*doc).len() as int),
        encrypted_of(*doc) ==> (r.title is None && r.sample_pages == 0 && r.extracted_char_count
            == 0 && r.empty_text_pages == 0 && r.image_xobject_count == 0 && r.likely_scanned
            && r.recommended_route@ == "ocr"@),
        (!encrypted_of(*doc) && page_ids_of(*doc).len() > 0) ==> {
            &&& r.extracted_char_count == clamp_i32(
                sum_chars_of(*doc, sample_pages_spec(r.num_pages as int)) as int,
            )
            &&& r.empty_text_pages == empty_pages_of(*doc, sample_pages_spec(r.num_pages as int))
            &&& r.image_xobject_count == clamp_i32(
                sum_images_of(
                    *doc,
                    page_ids_of(*doc),
                    sample_pages_spec(r.num_pages as int),
                ) as int,
            )
            &&& (r.title is Some) == (title_of(*doc) is Some)
            &&& (r.title matches Some(t) ==> Some(t@) == title_of(*doc))
        },
{
    let page_ids = doc_page_ids(doc);
    let num_pages = usize_to_i32_clamped(page_ids.len());
    if doc_is_encrypted(doc) {
        return PDFAnalysis {
            num_pages,
            title: None,
            is_encrypted: true,
            sample_pages: 0,
            extracted_char_count: 0,
            empty_text_pages: 0,
            image_xobject_count: 0,
            likely_scanned: true,
            recommended_route: "ocr".to_owned(),
        };
    }
    if num_pages == 0 {
        return PDFAnalysis::default();
    }
    proof {
        lemma_sample_pages_valid(num_pages as int);
    }
    let title = extract_title(doc);
    let page_nums = get_sample_page_numbers(num_pages as usize);
    let sample_pages: i32 = page_nums.len() as i32;

    let mut extracted: i32 = 0;
    let mut empty_pages: i32 = 0;
    let mut i: usize = 0;
    while i < page_nums.len()
        invariant
            i <= page_nums@.len() <= 3,
            page_nums@ == sample_pages_spec(num_pages as int),
            0 <= extracted,
            extracted == clamp_i32(sum_chars_of(*doc, page_nums@.take(i as int)) as int),
            0 <= empty_pages <= i,
            empty_pages == empty_pages_of(*doc, page_nums@.take(i as int)),
        decreases page_nums@.len() - i,
    {
        let page_num = page_nums[i];
        let c: usize = match doc_extract_page_text(doc, page_num) {
            Some(t) => non_whitespace_count(t.as_str()),
            None => 0usize,
        };
        proof {
            assert(c as nat == page_char_count_of(*doc, page_num));
            assert(page_nums@.take(i + 1).drop_last() =~= page_nums@.take(i as int));
            assert(page_nums@.take(i + 1).last() == page_nums@[i as int]);
        }
        let c32 = usize_to_i32_clamped(c);
        extracted = clamped_add_i32(extracted, c32);
        if c < 10 {
            empty_pages = empty_pages + 1;
        }
        i = i + 1;
    }
    proof {
        assert(page_nums@.take(page_nums@.len() as int) =~= page_nums@);
    }

    let mut images: i32 = 0;
    let mut k: usize = 0;
    while k < page_nums.len()
        invariant
            k <= page_nums@.len(),
            page_nums@ == sample_pages_spec(num_pages as int),
            page_ids@ == page_ids_of(*doc),
            1 <= num_pages,
            0 <= images,
            images == clamp_i32(
                sum_images_of(*doc, page_ids@, page_nums@.take(k as int)) as int,
            ),
        decreases page_nums@.len() - k,
    {
        proof {
            lemma_sample_pages_valid(num_pages as int);
            assert(page_nums@.take(k + 1).drop_last() =~= page_nums@.take(k as int));
            assert(page_nums@.take(k + 1).last() == page_nums@[k as int]);
        }
        let page_num = page_nums[k];
        let idx = (page_num - 1) as usize;
        if idx < page_ids.len() {
            let on_page = count_image_xobjects_on_page(doc, page_ids[idx]);
            images = clamped_add_i32(images, usize_to_i32_clamped(on_page));
        }
        k = k + 1;
    }
    proof {
        assert(page_nums@.take(page_nums@.len() as int) =~= page_nums@);
    }

    let (likely_scanned, recommended_route) = classify_signals(
        sample_pages,
        extracted,
        empty_pages,
        images,
    );
    PDFAnalysis {
        num_pages,
        title,
        is_encrypted: false,
        sample_pages,
        extracted_char_count: extracted,
        empty_text_pages: empty_pages,
        image_xobject_count: images,
        likely_scanned,
        recommended_route,
    }
}

/// Analyze the PDF file at `path`: load it, and triage it. Unloadable or
/// corrupt input yields the zero-page default result; the engine never
/// signals failure to its caller.
pub fn analyze_pdf(path: &str) -> (r: PDFAnalysis)
    ensures
        analysis_wf(r),
{
    match load_document(path) {
        Some(doc) => analyze_document(&doc),
        None => PDFAnalysis::default(),
    }
}

/// Extract the metadata projection of a full analysis of the file at
/// `path`: its page count and its title.
pub fn get_pdf_metadata(path: &str) -> (r: PDFMetadata)
    ensures
        0 <= r.num_pages,
        r.title matches Some(t) ==> (t@.len() > 0 && t@ == trim_spec(t@)),
{
    let analysis = analyze_pdf(path);
    PDFMetadata { num_pages: analysis.num_pages, title: analysis.title }
}

} // verus!
