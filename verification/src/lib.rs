//! Triage engine for PDF documents: samples up to three pages, extracts
//! cheap text and image signals, and recommends a downstream extraction
//! route ("fast", "layout" or "ocr"). The engine never fails: unloadable
//! or corrupt input yields a conservative zero-page default.

pub mod analysis;
pub mod classify;
pub mod docmodel;
pub mod parse_options;
pub mod sampler;
pub mod text;
pub mod triage;
