//! The opaque payload extractor: a lightweight scan, independent of the
//! structural envelope decoder, that collects the verbatim inner text of
//! every `<metadata> ... </metadata>` pair in a response, in document order.
//!
//! The payload's inner schema is not fixed by the protocol, so no structural
//! parse is attempted: whatever stands between the tags (nested markup,
//! namespace declarations, newlines) is passed through unmodified.

use vstd::prelude::*;

use crate::scan::{span_count_from, span_texts, to_chars, extract_spans, lemma_span_texts_count};

verus! {

/// The text that opens a payload span.
pub open spec fn metadata_open() -> Seq<char> {
    "<metadata>"@
}

/// The text that closes a payload span.
pub open spec fn metadata_close() -> Seq<char> {
    "</metadata>"@
}

/// The opaque payload spans of a response text, in document order: the
/// verbatim inner text of each non-overlapping, non-greedy
/// `<metadata> ... </metadata>` pair.
pub open spec fn metadata_spans(s: Seq<char>) -> Seq<Seq<char>> {
    span_texts(s, metadata_open(), metadata_close())
}

/// Extract all metadata elements from a response.
///
/// Works for both a single-record and a multi-record response. Returns the
/// payload spans in document order, each exactly as it appeared between the
/// tags.
pub fn extract_metadata(xml: &str) -> (r: Vec<String>)
    ensures
        r.deep_view() == metadata_spans(xml@),
{
    let hay = to_chars(xml);
    let open = to_chars("<metadata>");
    let close = to_chars("</metadata>");
    proof {
        reveal_strlit("<metadata>");
        reveal_strlit("</metadata>");
    }
    extract_spans(xml, &hay, &open, &close)
}

/// For any response text, the number of opaque payload spans extracted
/// equals the number of payload tag pairs present in the raw text, however
/// the text is laid out between tags.
pub proof fn lemma_extracted_count_is_pair_count(s: Seq<char>)
    ensures
        metadata_spans(s).len() == span_count_from(s, metadata_open(), metadata_close(), 0),
{
    lemma_span_texts_count(s, metadata_open(), metadata_close(), 0);
}

} // verus!
