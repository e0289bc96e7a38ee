//! Trusted boundary to the lopdf document model. The document, its
//! dictionaries, objects and streams are opaque here; the wrappers below
//! hand their contents to the verified traversal code. Every accessor's
//! result is a function of its arguments alone (lopdf's maps are
//! BTreeMap- and IndexMap-backed, with no seeded hashing), so each result
//! is given a name that the verified contracts are stated over; nothing
//! more is assumed of the document's contents.

use vstd::prelude::*;

verus! {

#[verifier::external_type_specification]
#[verifier::external_body]
pub struct ExDocument(lopdf::Document);

#[verifier::external_type_specification]
#[verifier::external_body]
pub struct ExDictionary(lopdf::Dictionary);

#[verifier::external_type_specification]
#[verifier::external_body]
pub struct ExObject(lopdf::Object);

#[verifier::external_type_specification]
#[verifier::external_body]
pub struct ExStream(lopdf::Stream);

/// Whether the document is encrypted, as `Document::is_encrypted` reports it.
pub uninterp spec fn encrypted_of(doc: lopdf::Document) -> bool;

/// The object ids of the document's pages, in page order, as
/// `Document::get_pages` enumerates them.
pub uninterp spec fn page_ids_of(doc: lopdf::Document) -> Seq<(u32, u16)>;

/// The text that best-effort extraction yields for a page of the document,
/// or nothing when extraction fails, as `Document::extract_text` decides it.
pub uninterp spec fn text_of(doc: lopdf::Document, page_number: u32) -> Option<Seq<char>>;

/// The dictionary stored in the document under an object id, or nothing,
/// as `Document::get_dictionary` resolves it.
pub uninterp spec fn dict_at(doc: lopdf::Document, id: (u32, u16)) -> Option<lopdf::Dictionary>;

/// The object stored in the document under an object id, or nothing, as
/// `Document::get_object` resolves it.
pub uninterp spec fn object_at(doc: lopdf::Document, id: (u32, u16)) -> Option<lopdf::Object>;

/// The document's trailer dictionary.
pub uninterp spec fn trailer_of(doc: lopdf::Document) -> lopdf::Dictionary;

/// The entry a dictionary holds under a key, or nothing, as
/// `Dictionary::get` looks it up.
pub uninterp spec fn dict_entry_of(dict: lopdf::Dictionary, key: Seq<char>) -> Option<
    lopdf::Object,
>;

/// The entry values of a dictionary, in its order, as `Dictionary::iter`
/// hands them out.
pub uninterp spec fn dict_values_of(dict: lopdf::Dictionary) -> Seq<lopdf::Object>;

/// The dictionary inside a `Dictionary` variant, or nothing for every
/// other variant, as `Object::as_dict` decides it.
pub uninterp spec fn dict_of(object: lopdf::Object) -> Option<lopdf::Dictionary>;

/// The object id inside a `Reference` variant, or nothing for every other
/// variant, as `Object::as_reference` decides it.
pub uninterp spec fn ref_of(object: lopdf::Object) -> Option<(u32, u16)>;

/// The stream inside a `Stream` variant, or nothing for every other
/// variant, as `Object::as_stream` decides it.
pub uninterp spec fn stream_of(object: lopdf::Object) -> Option<lopdf::Stream>;

/// The bytes inside a `Name` variant, or nothing for every other variant,
/// as `Object::as_name` decides it.
pub uninterp spec fn name_of(object: lopdf::Object) -> Option<Seq<u8>>;

/// The bytes inside a `String` variant, or nothing for every other
/// variant, as `Object::as_str` decides it.
pub uninterp spec fn string_bytes_of(object: lopdf::Object) -> Option<Seq<u8>>;

/// The stream's own dictionary, its `dict` field.
pub uninterp spec fn stream_dict_of(stream: lopdf::Stream) -> lopdf::Dictionary;

/// Relies on lopdf's `Document::load`: reads and parses the file at `path`;
/// a read or parse failure is a single failure signal. The result depends
/// on what is on disk, so nothing is assumed of it.
#[verifier::external_body]
pub fn load_document(path: &str) -> (r: Option<lopdf::Document>) {
    lopdf::Document::load(path).ok()
}

/// Relies on lopdf's `Document::is_encrypted`: whether the trailer holds a
/// resolvable `Encrypt` entry; a function of the document alone.
#[verifier::external_body]
pub fn doc_is_encrypted(doc: &lopdf::Document) -> (r: bool)
    ensures
        r == encrypted_of(*doc),
{
    doc.is_encrypted()
}

/// Relies on lopdf's `Document::get_pages`: page numbers are assigned
/// 1 upward in page-tree order, so the map's values in key order are the
/// page object ids in page order; a function of the document alone.
#[verifier::external_body]
pub fn doc_page_ids(doc: &lopdf::Document) -> (r: Vec<(u32, u16)>)
    ensures
        r@ == page_ids_of(*doc),
{
    doc.get_pages().into_values().collect()
}

/// Relies on lopdf's `Document::extract_text` over a single page:
/// best-effort decoded text; a function of the document and page number.
#[verifier::external_body]
pub fn doc_extract_page_text(doc: &lopdf::Document, page_number: u32) -> (r: Option<String>)
    ensures
        (r is Some) == (text_of(*doc, page_number) is Some),
        r matches Some(t) ==> Some(t@) == text_of(*doc, page_number),
{
    doc.extract_text(&[page_number]).ok()
}

/// Relies on lopdf's `Document::get_dictionary`: resolves an object id to
/// the dictionary stored under it, if any; a function of the document and
/// the id.
#[verifier::external_body]
pub fn doc_get_dictionary<'a>(doc: &'a lopdf::Document, id: (u32, u16)) -> (r: Option<
    &'a lopdf::Dictionary,
>)
    ensures
        (r is Some) == (dict_at(*doc, id) is Some),
        r matches Some(d) ==> Some(*d) == dict_at(*doc, id),
{
    doc.get_dictionary(id).ok()
}

/// Relies on lopdf's `Document::get_object`: resolves an object id to the
/// object stored under it, if any; a function of the document and the id.
#[verifier::external_body]
pub fn doc_get_object<'a>(doc: &'a lopdf::Document, id: (u32, u16)) -> (r: Option<
    &'a lopdf::Object,
>)
    ensures
        (r is Some) == (object_at(*doc, id) is Some),
        r matches Some(o) ==> Some(*o) == object_at(*doc, id),
{
    doc.get_object(id).ok()
}

/// Relies on lopdf's `Document::trailer` public field: the document's
/// trailer dictionary.
#[verifier::external_body]
pub fn doc_trailer<'a>(doc: &'a lopdf::Document) -> (r: &'a lopdf::Dictionary)
    ensures
        *r == trailer_of(*doc),
{
    &doc.trailer
}

/// Relies on lopdf's `Dictionary::get`: the entry stored under `key`, if
/// any; a function of the dictionary and the key.
#[verifier::external_body]
pub fn dict_get<'a>(dict: &'a lopdf::Dictionary, key: &str) -> (r: Option<&'a lopdf::Object>)
    ensures
        (r is Some) == (dict_entry_of(*dict, key@) is Some),
        r matches Some(o) ==> Some(*o) == dict_entry_of(*dict, key@),
{
    dict.get(key.as_bytes()).ok()
}

/// Relies on lopdf's `Dictionary::iter`: hands out the dictionary's entry
/// values, each one once, in its insertion order; a function of the
/// dictionary alone.
#[verifier::external_body]
pub fn dict_values<'a>(dict: &'a lopdf::Dictionary) -> (r: Vec<&'a lopdf::Object>)
    ensures
        r@.len() == dict_values_of(*dict).len(),
        forall|i: int| 0 <= i < r@.len() ==> *(#[trigger] r@[i]) == dict_values_of(*dict)[i],
{
    dict.iter().map(|(_name, object)| object).collect()
}

/// Relies on lopdf's `Object::as_dict`: the dictionary inside a
/// `Dictionary` variant, and a failure for every other variant.
#[verifier::external_body]
pub fn object_as_dict<'a>(object: &'a lopdf::Object) -> (r: Option<&'a lopdf::Dictionary>)
    ensures
        (r is Some) == (dict_of(*object) is Some),
        r matches Some(d) ==> Some(*d) == dict_of(*object),
{
    object.as_dict().ok()
}

/// Relies on lopdf's `Object::as_reference`: the object id inside a
/// `Reference` variant, and a failure for every other variant.
#[verifier::external_body]
pub fn object_as_reference(object: &lopdf::Object) -> (r: Option<(u32, u16)>)
    ensures
        r == ref_of(*object),
{
    object.as_reference().ok()
}

/// Relies on lopdf's `Object::as_stream`: the stream inside a `Stream`
/// variant, and a failure for every other variant.
#[verifier::external_body]
pub fn object_as_stream<'a>(object: &'a lopdf::Object) -> (r: Option<&'a lopdf::Stream>)
    ensures
        (r is Some) == (stream_of(*object) is Some),
        r matches Some(s) ==> Some(*s) == stream_of(*object),
{
    object.as_stream().ok()
}

/// Relies on lopdf's `Object::as_name`: the bytes inside a `Name` variant,
/// and a failure for every other variant.
#[verifier::external_body]
pub fn object_as_name<'a>(object: &'a lopdf::Object) -> (r: Option<&'a [u8]>)
    ensures
        (r is Some) == (name_of(*object) is Some),
        r matches Some(n) ==> Some(n@) == name_of(*object),
{
    object.as_name().ok()
}

/// Relies on lopdf's `Object::as_str`: the bytes inside a `String` variant,
/// and a failure for every other variant.
#[verifier::external_body]
pub fn object_string_bytes(object: &lopdf::Object) -> (r: Option<Vec<u8>>)
    ensures
        (r is Some) == (string_bytes_of(*object) is Some),
        r matches Some(b) ==> Some(b@) == string_bytes_of(*object),
{
    object.as_str().ok().map(|bytes| bytes.to_vec())
}

/// Relies on lopdf's `Stream::dict` public field: the stream's own
/// dictionary.
#[verifier::external_body]
pub fn stream_dict<'a>(stream: &'a lopdf::Stream) -> (r: &'a lopdf::Dictionary)
    ensures
        *r == stream_dict_of(*stream),
{
    &stream.dict
}

} // verus!
