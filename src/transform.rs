use vstd::prelude::*;
use crate::bom::{bom_check, bom_len, strip_bom, utf16be_bom, utf16le_bom, utf8_bom};
use crate::json::{compact_of, encode_compact, encode_pretty, error_message, json_valid, parse_value, pretty_of};

verus! {

/// The step of a file's processing that failed.
#[derive(Clone, Copy, Debug, PartialEq, Eq, Structural)]
pub enum ErrorKind {
    /// The file could not be read.
    Read,
    /// The bytes are not a JSON document.
    Parse,
    /// The new content could not be produced or written back.
    Write,
}

/// Why one file was not rewritten.
#[derive(Clone, Debug)]
pub struct FileError {
    pub kind: ErrorKind,
    pub message: String,
}

/// The normalized form of `content`: the serialization, compact or indented,
/// of the value parsed from the bytes left after the marker step.
pub open spec fn normalized(content: Seq<u8>, minify: bool, look_at_bom: bool) -> Seq<u8> {
    if minify {
        compact_of(strip_bom(content, look_at_bom))
    } else {
        pretty_of(strip_bom(content, look_at_bom))
    }
}

/// The bytes of a file fail to parse, after the marker is stripped if asked.
pub open spec fn malformed(content: Seq<u8>, look_at_bom: bool) -> bool {
    !json_valid(strip_bom(content, look_at_bom))
}

/// Turns the content of one file into its normalized form: strips a leading
/// byte-order marker when `look_at_bom` is set, parses the rest as JSON, and
/// serializes the value compactly when `minify` is set, indented otherwise.
/// Succeeds exactly when the bytes handed to the parser are JSON, and fails
/// with `Parse` otherwise.
pub fn process_content(content: &Vec<u8>, minify: bool, look_at_bom: bool) -> (r: Result<
    Vec<u8>,
    FileError,
>)
    ensures
        r is Ok <==> !malformed(content@, look_at_bom),
        r is Ok ==> r->Ok_0@ == normalized(content@, minify, look_at_bom),
        r is Err ==> r->Err_0.kind == ErrorKind::Parse,
{
    let body = bom_check(content, look_at_bom);
    let value = match parse_value(body) {
        Ok(v) => v,
        Err(e) => {
            return Err(FileError { kind: ErrorKind::Parse, message: error_message(&e) });
        },
    };
    let encoded = if minify {
        encode_compact(&value)
    } else {
        encode_pretty(&value)
    };
    match encoded {
        Ok(out) => Ok(out),
        Err(e) => Err(FileError { kind: ErrorKind::Write, message: error_message(&e) }),
    }
}

/// With stripping on, a file that starts with a byte-order marker is
/// rewritten to the same bytes as the same file without the marker with
/// stripping off.
pub proof fn lemma_marker_ignored(content: Seq<u8>, minify: bool)
    ensures
        malformed(utf8_bom() + content, true) == malformed(content, false),
        normalized(utf8_bom() + content, minify, true) == normalized(content, minify, false),
        malformed(utf16le_bom() + content, true) == malformed(content, false),
        normalized(utf16le_bom() + content, minify, true) == normalized(content, minify, false),
        malformed(utf16be_bom() + content, true) == malformed(content, false),
        normalized(utf16be_bom() + content, minify, true) == normalized(content, minify, false),
{
    let a = utf8_bom() + content;
    assert(a.subrange(0, 3) =~= utf8_bom());
    assert(bom_len(a) == 3);
    assert(a.subrange(3, a.len() as int) =~= content);
    let b = utf16le_bom() + content;
    assert(b.subrange(0, 2) =~= utf16le_bom());
    if b.len() >= 3 {
        assert(b.subrange(0, 3)[0] == b[0]);
    }
    assert(bom_len(b) == 2);
    assert(b.subrange(2, b.len() as int) =~= content);
    let c = utf16be_bom() + content;
    assert(c.subrange(0, 2) =~= utf16be_bom());
    if c.len() >= 3 {
        assert(c.subrange(0, 3)[0] == c[0]);
    }
    assert(bom_len(c) == 2);
    assert(c.subrange(2, c.len() as int) =~= content);
}

} // verus!
