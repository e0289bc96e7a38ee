//! Options for the remote parse endpoint. The upload itself goes over
//! HTTP and lives outside the verified library; these are the plain
//! option values that callers build and hand to it.

use vstd::prelude::*;

verus! {

/// An output format that the parse endpoint can be asked for.
#[derive(Debug, Clone, PartialEq, Eq, Structural)]
pub enum ParseFormats {
    Markdown,
    HTML,
    RawHTML,
    Links,
    Images,
    Summary,
    Json,
    Attributes,
}

/// Options for parsing a local file: every field is optional and an unset
/// field leaves the choice to the endpoint.
#[derive(Debug, Clone)]
pub struct ParseOptions {
    pub formats: Option<Vec<ParseFormats>>,
    pub include_tags: Option<Vec<String>>,
    pub exclude_tags: Option<Vec<String>>,
    pub only_main_content: Option<bool>,
    pub timeout: Option<u32>,
    pub parsers: Option<Vec<String>>,
    pub remove_base64_images: Option<bool>,
}

impl Default for ParseOptions {
    /// Options with every field unset.
    fn default() -> (r: Self)
        ensures
            r.formats is None,
            r.include_tags is None,
            r.exclude_tags is None,
            r.only_main_content is None,
            r.timeout is None,
            r.parsers is None,
            r.remove_base64_images is None,
    {
        ParseOptions {
            formats: None,
            include_tags: None,
            exclude_tags: None,
            only_main_content: None,
            timeout: None,
            parsers: None,
            remove_base64_images: None,
        }
    }
}

} // verus!
