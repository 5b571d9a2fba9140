//! Normalizes JSON files in place: finds candidate files, strips a leading
//! byte-order marker on request, and re-serializes each document compactly
//! or with indentation.
mod bom;
mod json;
mod opts;
mod outcome;
mod transform;

pub use bom::{bom_check, bom_len, lemma_ascii_start_kept, strip_bom};
pub use json::{compact_of, json_valid, pretty_of};
pub use opts::{has_json_extension, has_json_name, within_depth, Opts};
pub use outcome::{report, FileOutcome, ReportLine};
pub use transform::{lemma_marker_ignored, malformed, normalized, process_content, ErrorKind, FileError};
