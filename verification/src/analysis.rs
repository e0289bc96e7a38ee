//! The analysis result: the sole output of a triage run, and the
//! invariants every returned result satisfies.

use vstd::prelude::*;

use crate::classify::likely_scanned_spec;
use crate::classify::route_spec;
use crate::text::is_ws;
use crate::text::trim_spec;

verus! {

/// The outcome of one triage run over one document.
#[derive(Debug, Clone)]
pub struct PDFAnalysis {
    pub num_pages: i32,
    pub title: Option<String>,
    pub is_encrypted: bool,
    pub sample_pages: i32,
    pub extracted_char_count: i32,
    pub empty_text_pages: i32,
    pub image_xobject_count: i32,
    pub likely_scanned: bool,
    pub recommended_route: String,
}

/// The metadata projection of an analysis result.
#[derive(Debug, Clone)]
pub struct PDFMetadata {
    pub num_pages: i32,
    pub title: Option<String>,
}

/// The safe default returned for unloadable or corrupt input: a zero-page
/// result routed to OCR.
pub open spec fn is_zero_default(a: PDFAnalysis) -> bool {
    &&& a.num_pages == 0
    &&& a.title is None
    &&& !a.is_encrypted
    &&& a.sample_pages == 0
    &&& a.extracted_char_count == 0
    &&& a.empty_text_pages == 0
    &&& a.image_xobject_count == 0
    &&& a.likely_scanned
    &&& a.recommended_route@ == "ocr"@
}

/// The invariants of every result the engine returns.
///
/// An encrypted document, a zero-page document and unloadable input all
/// force the sampling-derived fields to their defaults and route to OCR;
/// on the normal path the classifier fields agree exactly with the
/// classifier's definition over the aggregated counts, and a present title
/// is non-empty and carries no leading or trailing whitespace.
pub open spec fn analysis_wf(a: PDFAnalysis) -> bool {
    &&& 0 <= a.num_pages
    &&& 0 <= a.sample_pages <= 3
    &&& a.sample_pages <= a.num_pages
    &&& (a.sample_pages == 0) <==> (a.num_pages == 0 || a.is_encrypted)
    &&& (!a.is_encrypted && a.num_pages > 0) ==> a.sample_pages == (if a.num_pages < 3 {
        a.num_pages as int
    } else {
        3
    })
    &&& 0 <= a.extracted_char_count
    &&& 0 <= a.empty_text_pages <= a.sample_pages
    &&& 0 <= a.image_xobject_count
    &&& a.is_encrypted ==> (a.title is None && a.extracted_char_count == 0 && a.empty_text_pages
        == 0 && a.image_xobject_count == 0)
    &&& (a.is_encrypted || a.num_pages == 0) ==> (a.likely_scanned && a.recommended_route@
        == "ocr"@)
    &&& (!a.is_encrypted && a.num_pages > 0) ==> {
        &&& a.likely_scanned == likely_scanned_spec(
            a.sample_pages as int,
            a.extracted_char_count as int,
            a.empty_text_pages as int,
            a.image_xobject_count as int,
        )
        &&& a.recommended_route@ == route_spec(
            a.sample_pages as int,
            a.extracted_char_count as int,
            a.empty_text_pages as int,
            a.image_xobject_count as int,
        )
    }
    &&& (a.recommended_route@ == "ocr"@ || a.recommended_route@ == "layout"@
        || a.recommended_route@ == "fast"@)
    &&& (a.title matches Some(t) ==> (t@.len() > 0 && t@ == trim_spec(t@) && !is_ws(t@.first())
        && !is_ws(t@.last())))
}

/// A result with no pages never carries sampled signals: it is marked
/// likely scanned and routed to OCR, whatever else the run saw.
pub proof fn lemma_zero_pages_routes_ocr(a: PDFAnalysis)
    requires
        analysis_wf(a),
        a.num_pages == 0,
    ensures
        a.sample_pages == 0,
        a.likely_scanned,
        a.recommended_route@ == "ocr"@,
{
}

/// An encrypted result carries the page count and nothing else: no title,
/// no sampling, every extracted signal at zero, and the OCR route.
pub proof fn lemma_encrypted_forces_defaults(a: PDFAnalysis)
    requires
        analysis_wf(a),
        a.is_encrypted,
    ensures
        a.title is None,
        a.sample_pages == 0,
        a.extracted_char_count == 0,
        a.empty_text_pages == 0,
        a.image_xobject_count == 0,
        a.likely_scanned,
        a.recommended_route@ == "ocr"@,
{
}

impl Default for PDFAnalysis {
    /// The zero-page default result.
    fn default() -> (r: Self)
        ensures
            is_zero_default(r),
            analysis_wf(r),
    {
        PDFAnalysis {
            num_pages: 0,
            title: None,
            is_encrypted: false,
            sample_pages: 0,
            extracted_char_count: 0,
            empty_text_pages: 0,
            image_xobject_count: 0,
            likely_scanned: true,
            recommended_route: "ocr".to_owned(),
        }
    }
}

} // verus!
