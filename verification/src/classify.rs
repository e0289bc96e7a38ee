//! Heuristic classifier: turns the sampled signals into a routing decision.

use vstd::prelude::*;

verus! {

/// Average non-whitespace characters per sampled page, by truncating
/// division; zero when no page was sampled.
pub open spec fn avg_chars_spec(sample_pages: int, chars: int) -> int {
    if sample_pages > 0 {
        chars / sample_pages
    } else {
        0
    }
}

/// Whether the ratio of empty text pages to sampled pages exceeds 3/5.
/// No sampled page at all is the degenerate case, treated as maximally
/// suspicious.
pub open spec fn empty_ratio_exceeds_spec(sample_pages: int, empty_pages: int) -> bool {
    if sample_pages == 0 {
        true
    } else {
        5 * empty_pages > 3 * sample_pages
    }
}

/// A document is likely scanned when it shows at least one embedded image
/// and either little text on average or mostly empty text pages.
pub open spec fn likely_scanned_spec(
    sample_pages: int,
    chars: int,
    empty_pages: int,
    images: int,
) -> bool {
    (avg_chars_spec(sample_pages, chars) < 200 && images > 0) || (empty_ratio_exceeds_spec(
        sample_pages,
        empty_pages,
    ) && images > 0)
}

/// The recommended extraction route: "ocr" for likely scanned documents,
/// "layout" for text-rich documents that also carry images, "fast" otherwise.
pub open spec fn route_spec(sample_pages: int, chars: int, empty_pages: int, images: int) -> Seq<
    char,
> {
    if likely_scanned_spec(sample_pages, chars, empty_pages, images) {
        "ocr"@
    } else if avg_chars_spec(sample_pages, chars) >= 200 && images > 0 {
        "layout"@
    } else {
        "fast"@
    }
}

/// Classify the aggregated signals of the sampled pages.
/// Returns the scanned-document verdict and the recommended route.
///
/// The empty-page ratio threshold of 3/5 is compared on integers:
/// for counts in range, `empty / sample > 3/5` holds exactly when
/// `5 * empty > 3 * sample`.
pub fn classify_signals(sample_pages: i32, extracted_char_count: i32, empty_text_pages: i32, image_xobject_count: i32) -> (r: (
    bool,
    String,
))
    requires
        0 <= sample_pages <= 3,
        0 <= extracted_char_count,
        0 <= empty_text_pages <= sample_pages,
        0 <= image_xobject_count,
    ensures
        r.0 == likely_scanned_spec(
            sample_pages as int,
            extracted_char_count as int,
            empty_text_pages as int,
            image_xobject_count as int,
        ),
        r.1@ == route_spec(
            sample_pages as int,
            extracted_char_count as int,
            empty_text_pages as int,
            image_xobject_count as int,
        ),
{
    let avg_chars: i32 = if sample_pages > 0 {
        extracted_char_count / sample_pages
    } else {
        0
    };
    let empty_ratio_exceeds: bool = if sample_pages == 0 {
        true
    } else {
        5 * empty_text_pages > 3 * sample_pages
    };
    let likely_scanned = (avg_chars < 200 && image_xobject_count > 0) || (empty_ratio_exceeds
        && image_xobject_count > 0);
    let route: String = if likely_scanned {
        "ocr".to_owned()
    } else if avg_chars >= 200 && image_xobject_count > 0 {
        "layout".to_owned()
    } else {
        "fast".to_owned()
    };
    (likely_scanned, route)
}

} // verus!
