//! The envelope decoder and response assembler: turns one raw response text
//! into response metadata (response timestamp, echoed request), an optional
//! protocol-level error, and an optional verb-specific payload whose record
//! entries are paired positionally with the opaque payload spans.
//!
//! Decoding tolerates an absent payload (zero results or an errored
//! request) and never fails on an envelope that carries both an error and a
//! payload; it fails with `Error::MalformedEnvelope` exactly when the outer
//! element or a mandatory field is missing, as the contracts below state.

use vstd::prelude::*;

use crate::error::Error;
use crate::metadata::metadata_spans;
use crate::metadata::extract_metadata;
use crate::scan::attr_value;
use crate::scan::attr_value_str;
use crate::scan::all_digits;
use crate::scan::digits_val;
use crate::scan::elem_content;
use crate::scan::elem_content_str;
use crate::scan::extract_spans;
use crate::scan::find_elem;
use crate::scan::find_elem_in;
use crate::scan::find_from;
use crate::scan::find_in;
use crate::scan::opt_text;
use crate::scan::parse_u64_range;
use crate::scan::attr_range_in;
use crate::scan::span_texts;
use crate::scan::str_eq;
use crate::scan::to_chars;

verus! {

/// A protocol-level error reported inside a well-formed envelope.
#[derive(Debug)]
pub struct ResponseError {
    pub code: ErrorCode,
    pub message: String,
}

/// The error conditions the protocol defines.
#[derive(Debug, Clone, Copy, PartialEq, Eq, Structural)]
pub enum ErrorCode {
    BadArgument,
    BadResumptionToken,
    BadVerb,
    CannotDisseminateFormat,
    IdDoesNotExist,
    NoRecordsMatch,
    NoMetadataFormats,
    NoSetHierarchy,
}

impl ErrorCode {
    /// The exact text the protocol uses for this code.
    pub open spec fn spec_code_str(self) -> Seq<char> {
        match self {
            ErrorCode::BadArgument => "badArgument"@,
            ErrorCode::BadResumptionToken => "badResumptionToken"@,
            ErrorCode::BadVerb => "badVerb"@,
            ErrorCode::CannotDisseminateFormat => "cannotDisseminateFormat"@,
            ErrorCode::IdDoesNotExist => "idDoesNotExist"@,
            ErrorCode::NoRecordsMatch => "noRecordsMatch"@,
            ErrorCode::NoMetadataFormats => "noMetadataFormats"@,
            ErrorCode::NoSetHierarchy => "noSetHierarchy"@,
        }
    }

    /// Renders the code as the protocol's text.
    pub fn code_str(&self) -> (r: String)
        ensures
            r@ == self.spec_code_str(),
    {
        match self {
            ErrorCode::BadArgument => String::from_str("badArgument"),
            ErrorCode::BadResumptionToken => String::from_str("badResumptionToken"),
            ErrorCode::BadVerb => String::from_str("badVerb"),
            ErrorCode::CannotDisseminateFormat => String::from_str("cannotDisseminateFormat"),
            ErrorCode::IdDoesNotExist => String::from_str("idDoesNotExist"),
            ErrorCode::NoRecordsMatch => String::from_str("noRecordsMatch"),
            ErrorCode::NoMetadataFormats => String::from_str("noMetadataFormats"),
            ErrorCode::NoSetHierarchy => String::from_str("noSetHierarchy"),
        }
    }
}

/// The code, if any, whose protocol text is `s`.
pub open spec fn spec_code_of(s: Seq<char>) -> Option<ErrorCode> {
    if s == "badArgument"@ {
        Some(ErrorCode::BadArgument)
    } else if s == "badResumptionToken"@ {
        Some(ErrorCode::BadResumptionToken)
    } else if s == "badVerb"@ {
        Some(ErrorCode::BadVerb)
    } else if s == "cannotDisseminateFormat"@ {
        Some(ErrorCode::CannotDisseminateFormat)
    } else if s == "idDoesNotExist"@ {
        Some(ErrorCode::IdDoesNotExist)
    } else if s == "noRecordsMatch"@ {
        Some(ErrorCode::NoRecordsMatch)
    } else if s == "noMetadataFormats"@ {
        Some(ErrorCode::NoMetadataFormats)
    } else if s == "noSetHierarchy"@ {
        Some(ErrorCode::NoSetHierarchy)
    } else {
        None
    }
}

/// Maps the protocol's text to its code.
pub fn code_of_str(s: &str) -> (r: Option<ErrorCode>)
    ensures
        r == spec_code_of(s@),
{
    if str_eq(s, "badArgument") {
        Some(ErrorCode::BadArgument)
    } else if str_eq(s, "badResumptionToken") {
        Some(ErrorCode::BadResumptionToken)
    } else if str_eq(s, "badVerb") {
        Some(ErrorCode::BadVerb)
    } else if str_eq(s, "cannotDisseminateFormat") {
        Some(ErrorCode::CannotDisseminateFormat)
    } else if str_eq(s, "idDoesNotExist") {
        Some(ErrorCode::IdDoesNotExist)
    } else if str_eq(s, "noRecordsMatch") {
        Some(ErrorCode::NoRecordsMatch)
    } else if str_eq(s, "noMetadataFormats") {
        Some(ErrorCode::NoMetadataFormats)
    } else if str_eq(s, "noSetHierarchy") {
        Some(ErrorCode::NoSetHierarchy)
    } else {
        None
    }
}

// --- envelope-level specification ---

/// The first element named `error`, read as a protocol error: its `code`
/// attribute mapped to a code, and its inner text as the message. `None`
/// when the element, its attribute, or a known code is missing.
pub open spec fn spec_error(s: Seq<char>) -> Option<(ErrorCode, Seq<char>)> {
    match find_elem(s, "error"@, 0) {
        None => None,
        Some((i, g, e)) => match attr_value(s, "code"@, i + 1 + "error"@.len(), g) {
            None => None,
            Some(cv) => match spec_code_of(cv) {
                None => None,
                Some(c) => Some((c, s.subrange(g + 1, e))),
            },
        },
    }
}

/// An `error` element is either absent or carries a known `code` attribute.
pub open spec fn error_wf(s: Seq<char>) -> bool {
    match find_elem(s, "error"@, 0) {
        None => true,
        Some(_) => spec_error(s) is Some,
    }
}

/// The envelope's mandatory parts are present: the outer element, the
/// response timestamp, and the echoed request; and any error element is
/// well formed.
pub open spec fn envelope_wf(s: Seq<char>) -> bool {
    &&& find_from(s, "<OAI-PMH"@, 0) is Some
    &&& elem_content(s, "responseDate"@, 0) is Some
    &&& elem_content(s, "request"@, 0) is Some
    &&& error_wf(s)
}

/// The spec-level view of a decoded protocol error.
pub open spec fn err_view(e: Option<ResponseError>) -> Option<(ErrorCode, Seq<char>)> {
    match e {
        None => None,
        Some(re) => Some((re.code, re.message@)),
    }
}

/// Decodes the envelope parts shared by every verb: response timestamp,
/// echoed request, and the optional protocol error. Fails with
/// `MalformedEnvelope` exactly when `envelope_wf` does not hold of the
/// text.
fn decode_envelope(xml: &str, hay: &Vec<char>) -> (r: Result<
    (String, String, Option<ResponseError>),
    Error,
>)
    requires
        xml@ == hay@,
    ensures
        match r {
            Ok((rd, rq, err)) => {
                &&& envelope_wf(xml@)
                &&& Some(rd@) == elem_content(xml@, "responseDate"@, 0)
                &&& Some(rq@) == elem_content(xml@, "request"@, 0)
                &&& err_view(err) == spec_error(xml@)
            },
            Err(e) => !envelope_wf(xml@) && e is MalformedEnvelope,
        },
{
    proof {
        reveal_strlit("responseDate");
        reveal_strlit("request");
        reveal_strlit("error");
        reveal_strlit("code");
    }
    let outer = to_chars("<OAI-PMH");
    if find_in(hay, &outer, 0).is_none() {
        return Err(Error::MalformedEnvelope(String::from_str("missing outer envelope element")));
    }
    let rd = match elem_content_str(xml, hay, &to_chars("responseDate")) {
        Some(rd) => rd,
        None => {
            return Err(
                Error::MalformedEnvelope(String::from_str("missing response timestamp")),
            );
        },
    };
    let rq = match elem_content_str(xml, hay, &to_chars("request")) {
        Some(rq) => rq,
        None => {
            return Err(Error::MalformedEnvelope(String::from_str("missing echoed request")));
        },
    };
    let errname = to_chars("error");
    let err = match find_elem_in(hay, &errname, 0) {
        None => None,
        Some((i, g, e)) => {
            let code_text = match attr_value_str(xml, hay, &to_chars("code"), i + 1 + errname.len(), g) {
                Some(cv) => cv,
                None => {
                    return Err(
                        Error::MalformedEnvelope(
                            String::from_str("error element without a code attribute"),
                        ),
                    );
                },
            };
            let code = match code_of_str(code_text.as_str()) {
                Some(c) => c,
                None => {
                    return Err(
                        Error::MalformedEnvelope(String::from_str("unknown error code")),
                    );
                },
            };
            let message = String::from_str(xml.substring_char(g + 1, e));
            Some(ResponseError { code, message })
        },
    };
    Ok((rd, rq, err))
}

// --- record-level specification and decoding ---

/// A record's descriptive part: its identity, timestamp, deletion status,
/// and set membership.
#[derive(Debug)]
pub struct Header {
    pub identifier: String,
    pub datestamp: String,
    pub status: Option<String>,
    pub set_spec: Vec<String>,
}

/// One record entry: a header, the record's opaque payload exactly as it
/// appeared between the payload tags, and the optional `about` text.
#[derive(Debug)]
pub struct Record {
    pub header: Header,
    pub metadata: String,
    pub about: String,
}

/// The continuation element of a paginated payload.
#[derive(Debug)]
pub struct ResumptionToken {
    pub token: String,
    pub expiration_date: Option<String>,
    pub complete_list_size: Option<u64>,
    pub cursor: Option<u64>,
}

/// The record texts of a payload, in document order.
pub open spec fn record_texts(p: Seq<char>) -> Seq<Seq<char>> {
    span_texts(p, "<record>"@, "</record>"@)
}

/// Inner text of a record's `header` element.
pub open spec fn header_content(rec: Seq<char>) -> Option<Seq<char>> {
    elem_content(rec, "header"@, 0)
}

/// The `status` attribute of a record's `header` element.
pub open spec fn header_status(rec: Seq<char>) -> Option<Seq<char>> {
    match find_elem(rec, "header"@, 0) {
        None => None,
        Some((i, g, e)) => attr_value(rec, "status"@, i + 1 + "header"@.len(), g),
    }
}

/// A record text carries the mandatory header fields.
pub open spec fn record_wf(rec: Seq<char>) -> bool {
    match header_content(rec) {
        None => false,
        Some(hc) => elem_content(hc, "identifier"@, 0) is Some && elem_content(
            hc,
            "datestamp"@,
            0,
        ) is Some,
    }
}

/// `h` holds exactly the header fields of the record text `rec`.
pub open spec fn header_matches(h: Header, rec: Seq<char>) -> bool {
    match header_content(rec) {
        None => false,
        Some(hc) => {
            &&& Some(h.identifier@) == elem_content(hc, "identifier"@, 0)
            &&& Some(h.datestamp@) == elem_content(hc, "datestamp"@, 0)
            &&& opt_text(h.status) == header_status(rec)
            &&& h.set_spec.deep_view() == span_texts(hc, "<setSpec>"@, "</setSpec>"@)
        },
    }
}

/// The `about` text of a record, or empty when the element is absent.
pub open spec fn about_text(rec: Seq<char>) -> Seq<char> {
    match elem_content(rec, "about"@, 0) {
        Some(t) => t,
        None => Seq::empty(),
    }
}

/// `r` holds exactly the fields of the record text `rec`, with `meta` as
/// its opaque payload.
pub open spec fn record_matches(r: Record, rec: Seq<char>, meta: Seq<char>) -> bool {
    &&& header_matches(r.header, rec)
    &&& r.metadata@ == meta
    &&& r.about@ == about_text(rec)
}

/// The opaque payload assigned to entry `i`: the `i`-th extracted span in
/// document order, or empty when fewer spans than entries were found (a
/// mismatch is recoverable by the caller, never a processing failure).
pub open spec fn meta_for(i: int, metas: Seq<Seq<char>>) -> Seq<char> {
    if 0 <= i < metas.len() {
        metas[i]
    } else {
        Seq::empty()
    }
}

/// Pairing: whenever entry `i` has a matching span (in particular whenever
/// there are as many spans as entries), the entry is assigned exactly the
/// `i`-th span, verbatim; entries beyond the spans receive an empty
/// payload.
pub proof fn lemma_positional_pairing(i: int, metas: Seq<Seq<char>>)
    ensures
        0 <= i < metas.len() ==> meta_for(i, metas) == metas[i],
        !(0 <= i < metas.len()) ==> meta_for(i, metas) == Seq::<char>::empty(),
{
}

/// Decodes one record text. Fails with `MalformedEnvelope` exactly when a
/// mandatory header field is missing; `meta` becomes the record's opaque
/// payload, untouched.
fn decode_record(rec: &str, meta: String) -> (r: Result<Record, Error>)
    ensures
        match r {
            Ok(rd) => record_wf(rec@) && record_matches(rd, rec@, meta@),
            Err(e) => !record_wf(rec@) && e is MalformedEnvelope,
        },
{
    proof {
        reveal_strlit("header");
        reveal_strlit("identifier");
        reveal_strlit("datestamp");
        reveal_strlit("status");
        reveal_strlit("about");
        reveal_strlit("<setSpec>");
        reveal_strlit("</setSpec>");
    }
    let rh = to_chars(rec);
    let hname = to_chars("header");
    let (hi, hg, he) = match find_elem_in(&rh, &hname, 0) {
        Some(p) => p,
        None => {
            return Err(Error::MalformedEnvelope(String::from_str("record without a header")));
        },
    };
    let hc_str = String::from_str(rec.substring_char(hg + 1, he));
    let hc = to_chars(hc_str.as_str());
    let identifier = match elem_content_str(hc_str.as_str(), &hc, &to_chars("identifier")) {
        Some(t) => t,
        None => {
            return Err(
                Error::MalformedEnvelope(String::from_str("header without an identifier")),
            );
        },
    };
    let datestamp = match elem_content_str(hc_str.as_str(), &hc, &to_chars("datestamp")) {
        Some(t) => t,
        None => {
            return Err(Error::MalformedEnvelope(String::from_str("header without a datestamp")));
        },
    };
    let status = attr_value_str(rec, &rh, &to_chars("status"), hi + 1 + hname.len(), hg);
    let set_spec = extract_spans(hc_str.as_str(), &hc, &to_chars("<setSpec>"), &to_chars("</setSpec>"));
    let about = match elem_content_str(rec, &rh, &to_chars("about")) {
        Some(t) => t,
        None => String::new(),
    };
    Ok(Record { header: Header { identifier, datestamp, status, set_spec }, metadata: meta, about })
}

/// Every record text of the payload carries its mandatory header fields.
pub open spec fn records_wf(p: Seq<char>) -> bool {
    forall|i: int| 0 <= i < record_texts(p).len() ==> record_wf(#[trigger] record_texts(p)[i])
}

/// Decodes every record of a payload text, pairing entry `i` with the
/// `i`-th opaque payload span.
fn decode_records(payload: &str, metas: &Vec<String>) -> (r: Result<Vec<Record>, Error>)
    ensures
        match r {
            Ok(v) => {
                &&& records_wf(payload@)
                &&& v@.len() == record_texts(payload@).len()
                &&& forall|i: int|
                    0 <= i < record_texts(payload@).len() ==> record_matches(
                        #[trigger] v@[i],
                        record_texts(payload@)[i],
                        meta_for(i, metas.deep_view()),
                    )
            },
            Err(e) => !records_wf(payload@) && e is MalformedEnvelope,
        },
{
    proof {
        reveal_strlit("<record>");
        reveal_strlit("</record>");
    }
    let ph = to_chars(payload);
    let spans = extract_spans(payload, &ph, &to_chars("<record>"), &to_chars("</record>"));
    let n = spans.len();
    let mut out: Vec<Record> = Vec::new();
    let mut i: usize = 0;
    while i < n
        invariant
            n == spans@.len(),
            spans.deep_view() == record_texts(payload@),
            i <= n,
            out@.len() == i,
            forall|j: int| 0 <= j < i ==> record_wf(#[trigger] record_texts(payload@)[j]),
            forall|j: int|
                0 <= j < i ==> record_matches(
                    #[trigger] out@[j],
                    record_texts(payload@)[j],
                    meta_for(j, metas.deep_view()),
                ),
        decreases n - i,
    {
        let meta = if i < metas.len() {
            metas[i].clone()
        } else {
            String::new()
        };
        proof {
            assert(meta@ == meta_for(i as int, metas.deep_view()));
            assert(spans@[i as int]@ == record_texts(payload@)[i as int]);
        }
        let rec = match decode_record(spans[i].as_str(), meta) {
            Ok(rd) => rd,
            Err(e) => {
                proof {
                    assert(!record_wf(record_texts(payload@)[i as int]));
                }
                return Err(e);
            },
        };
        out.push(rec);
        proof {
            assert(out@[i as int] == rec);
        }
        i += 1;
    }
    proof {
        assert(spans.deep_view().len() == spans@.len());
    }
    Ok(out)
}

/// The numeric value of attribute `name` in `[a, b)` of `s`: defined when
/// the attribute is present, non-empty, all digits, and fits in a `u64`;
/// absent or unusable values read as `None`.
pub open spec fn spec_attr_u64(s: Seq<char>, name: Seq<char>, a: int, b: int) -> Option<u64> {
    match attr_value(s, name, a, b) {
        None => None,
        Some(v) => if v.len() > 0 && all_digits(v) && digits_val(v) <= u64::MAX {
            Some(digits_val(v) as u64)
        } else {
            None
        },
    }
}

/// Reads attribute `name` in `[a, b)` of `hay` as a decimal number.
fn attr_u64(hay: &Vec<char>, name: &Vec<char>, a: usize, b: usize) -> (r: Option<u64>)
    requires
        name@.len() > 0,
        b <= hay@.len(),
    ensures
        r == spec_attr_u64(hay@, name@, a as int, b as int),
{
    match attr_range_in(hay, name, a, b) {
        None => None,
        Some((u, v)) => parse_u64_range(hay, u, v),
    }
}

/// `t` holds exactly the fields of the first continuation element of the
/// payload text `p`.
pub open spec fn token_matches(t: ResumptionToken, p: Seq<char>) -> bool {
    match find_elem(p, "resumptionToken"@, 0) {
        None => false,
        Some((i, g, e)) => {
            &&& t.token@ == p.subrange(g + 1, e)
            &&& opt_text(t.expiration_date) == attr_value(
                p,
                "expirationDate"@,
                i + 1 + "resumptionToken"@.len(),
                g,
            )
            &&& t.complete_list_size == spec_attr_u64(
                p,
                "completeListSize"@,
                i + 1 + "resumptionToken"@.len(),
                g,
            )
            &&& t.cursor == spec_attr_u64(p, "cursor"@, i + 1 + "resumptionToken"@.len(), g)
        },
    }
}

/// Decodes the continuation element of a payload text, when present.
fn decode_token(p: &str, ph: &Vec<char>) -> (r: Option<ResumptionToken>)
    requires
        p@ == ph@,
    ensures
        match r {
            Some(t) => find_elem(p@, "resumptionToken"@, 0) is Some && token_matches(t, p@),
            None => find_elem(p@, "resumptionToken"@, 0) is None,
        },
{
    proof {
        reveal_strlit("resumptionToken");
        reveal_strlit("expirationDate");
        reveal_strlit("completeListSize");
        reveal_strlit("cursor");
    }
    let name = to_chars("resumptionToken");
    let (i, g, e) = match find_elem_in(ph, &name, 0) {
        Some(x) => x,
        None => {
            return None;
        },
    };
    let token = String::from_str(p.substring_char(g + 1, e));
    let a = i + 1 + name.len();
    let expiration_date = attr_value_str(p, ph, &to_chars("expirationDate"), a, g);
    let complete_list_size = attr_u64(ph, &to_chars("completeListSize"), a, g);
    let cursor = attr_u64(ph, &to_chars("cursor"), a, g);
    Some(ResumptionToken { token, expiration_date, complete_list_size, cursor })
}

// --- the verb-specific responses ---

/// Payload of a single-record fetch.
#[derive(Debug)]
pub struct GetRecord {
    pub record: Record,
}

/// Payload of a repository self-description.
#[derive(Debug)]
pub struct Identify {
    pub repository_name: String,
    pub base_url: String,
    pub protocol_version: String,
    pub admin_email: Vec<String>,
    pub earliest_datestamp: String,
    pub deleted_record: String,
    pub granularity: String,
    pub compression: Vec<String>,
    pub description: Vec<String>,
}

/// Payload of one page of a record listing.
#[derive(Debug)]
pub struct ListRecords {
    pub record: Vec<Record>,
    pub resumption_token: Option<ResumptionToken>,
}

/// The text `s` decodes as a single-record response: a well-formed
/// envelope whose payload, when present, holds at least one well-formed
/// record.
pub open spec fn get_record_wf(s: Seq<char>) -> bool {
    &&& envelope_wf(s)
    &&& match elem_content(s, "GetRecord"@, 0) {
        None => true,
        Some(p) => record_texts(p).len() >= 1 && record_wf(record_texts(p)[0]),
    }
}

/// The text `s` decodes as a record-listing response: a well-formed
/// envelope whose payload, when present, holds only well-formed records.
pub open spec fn list_records_wf(s: Seq<char>) -> bool {
    &&& envelope_wf(s)
    &&& match elem_content(s, "ListRecords"@, 0) {
        None => true,
        Some(p) => records_wf(p),
    }
}

/// The text `s` decodes as a self-description response: a well-formed
/// envelope whose payload, when present, carries every mandatory field.
pub open spec fn identify_wf(s: Seq<char>) -> bool {
    &&& envelope_wf(s)
    &&& match elem_content(s, "Identify"@, 0) {
        None => true,
        Some(p) => {
            &&& elem_content(p, "repositoryName"@, 0) is Some
            &&& elem_content(p, "baseURL"@, 0) is Some
            &&& elem_content(p, "protocolVersion"@, 0) is Some
            &&& elem_content(p, "earliestDatestamp"@, 0) is Some
            &&& elem_content(p, "deletedRecord"@, 0) is Some
            &&& elem_content(p, "granularity"@, 0) is Some
        },
    }
}

/// `pl` holds exactly the records of the payload text `p`, each paired with
/// its opaque payload span, and the payload's continuation element.
pub open spec fn list_records_payload_matches(
    pl: ListRecords,
    p: Seq<char>,
    metas: Seq<Seq<char>>,
) -> bool {
    &&& pl.record@.len() == record_texts(p).len()
    &&& forall|i: int|
        0 <= i < record_texts(p).len() ==> record_matches(
            #[trigger] pl.record@[i],
            record_texts(p)[i],
            meta_for(i, metas),
        )
    &&& match pl.resumption_token {
        None => find_elem(p, "resumptionToken"@, 0) is None,
        Some(t) => token_matches(t, p),
    }
}

/// `pl` holds exactly the fields of the self-description payload text `p`.
pub open spec fn identify_matches(pl: Identify, p: Seq<char>) -> bool {
    &&& Some(pl.repository_name@) == elem_content(p, "repositoryName"@, 0)
    &&& Some(pl.base_url@) == elem_content(p, "baseURL"@, 0)
    &&& Some(pl.protocol_version@) == elem_content(p, "protocolVersion"@, 0)
    &&& Some(pl.earliest_datestamp@) == elem_content(p, "earliestDatestamp"@, 0)
    &&& Some(pl.deleted_record@) == elem_content(p, "deletedRecord"@, 0)
    &&& Some(pl.granularity@) == elem_content(p, "granularity"@, 0)
    &&& pl.admin_email.deep_view() == span_texts(p, "<adminEmail>"@, "</adminEmail>"@)
    &&& pl.compression.deep_view() == span_texts(p, "<compression>"@, "</compression>"@)
    &&& pl.description@.len() == 0
}

/// The decoded result of a single-record fetch.
#[derive(Debug)]
pub struct GetRecordResponse {
    pub response_date: String,
    pub request: String,
    pub error: Option<ResponseError>,
    pub payload: Option<GetRecord>,
}

impl GetRecordResponse {
    /// Decodes a single-record response from the raw response text. The
    /// record's opaque payload is the first extracted span, or empty when
    /// none was found. Fails with `MalformedEnvelope` exactly when the text
    /// is not `get_record_wf`.
    pub fn new(xml: &str) -> (r: Result<Self, Error>)
        ensures
            match r {
                Ok(resp) => {
                    &&& get_record_wf(xml@)
                    &&& Some(resp.response_date@) == elem_content(xml@, "responseDate"@, 0)
                    &&& Some(resp.request@) == elem_content(xml@, "request"@, 0)
                    &&& err_view(resp.error) == spec_error(xml@)
                    &&& match (resp.payload, elem_content(xml@, "GetRecord"@, 0)) {
                        (None, None) => true,
                        (Some(pl), Some(p)) => record_texts(p).len() >= 1 && record_matches(
                            pl.record,
                            record_texts(p)[0],
                            meta_for(0, metadata_spans(xml@)),
                        ),
                        _ => false,
                    }
                },
                Err(e) => !get_record_wf(xml@) && e is MalformedEnvelope,
            },
    {
        proof {
            reveal_strlit("GetRecord");
            reveal_strlit("<record>");
            reveal_strlit("</record>");
        }
        let hay = to_chars(xml);
        let (response_date, request, error) = match decode_envelope(xml, &hay) {
            Ok(t) => t,
            Err(e) => {
                return Err(e);
            },
        };
        let payload = match elem_content_str(xml, &hay, &to_chars("GetRecord")) {
            None => None,
            Some(p) => {
                let ph = to_chars(p.as_str());
                let spans = extract_spans(
                    p.as_str(),
                    &ph,
                    &to_chars("<record>"),
                    &to_chars("</record>"),
                );
                if spans.len() == 0 {
                    return Err(
                        Error::MalformedEnvelope(String::from_str("payload without a record")),
                    );
                }
                let metas = extract_metadata(xml);
                let meta = if metas.len() > 0 {
                    metas[0].clone()
                } else {
                    String::new()
                };
                proof {
                    assert(meta@ == meta_for(0, metadata_spans(xml@)));
                    assert(spans@[0]@ == record_texts(p@)[0]);
                }
                let record = match decode_record(spans[0].as_str(), meta) {
                    Ok(rd) => rd,
                    Err(e) => {
                        return Err(e);
                    },
                };
                Some(GetRecord { record })
            },
        };
        Ok(GetRecordResponse { response_date, request, error, payload })
    }

    /// Whether the envelope carried a protocol-level error.
    pub fn is_err(&self) -> (r: bool)
        ensures
            r == (self.error is Some),
    {
        self.error.is_some()
    }
}

/// The decoded result of a repository self-description.
#[derive(Debug)]
pub struct IdentifyResponse {
    pub response_date: String,
    pub request: String,
    pub error: Option<ResponseError>,
    pub payload: Option<Identify>,
}

impl IdentifyResponse {
    /// Decodes a self-description response from the raw response text.
    /// Fails with `MalformedEnvelope` exactly when the text is not
    /// `identify_wf`.
    pub fn new(xml: &str) -> (r: Result<Self, Error>)
        ensures
            match r {
                Ok(resp) => {
                    &&& identify_wf(xml@)
                    &&& Some(resp.response_date@) == elem_content(xml@, "responseDate"@, 0)
                    &&& Some(resp.request@) == elem_content(xml@, "request"@, 0)
                    &&& err_view(resp.error) == spec_error(xml@)
                    &&& match (resp.payload, elem_content(xml@, "Identify"@, 0)) {
                        (None, None) => true,
                        (Some(pl), Some(p)) => identify_matches(pl, p),
                        _ => false,
                    }
                },
                Err(e) => !identify_wf(xml@) && e is MalformedEnvelope,
            },
    {
        proof {
            reveal_strlit("Identify");
            reveal_strlit("repositoryName");
            reveal_strlit("baseURL");
            reveal_strlit("protocolVersion");
            reveal_strlit("earliestDatestamp");
            reveal_strlit("deletedRecord");
            reveal_strlit("granularity");
            reveal_strlit("<adminEmail>");
            reveal_strlit("</adminEmail>");
            reveal_strlit("<compression>");
            reveal_strlit("</compression>");
        }
        let hay = to_chars(xml);
        let (response_date, request, error) = match decode_envelope(xml, &hay) {
            Ok(t) => t,
            Err(e) => {
                return Err(e);
            },
        };
        let payload = match elem_content_str(xml, &hay, &to_chars("Identify")) {
            None => None,
            Some(p) => {
                let ph = to_chars(p.as_str());
                let repository_name = match elem_content_str(
                    p.as_str(),
                    &ph,
                    &to_chars("repositoryName"),
                ) {
                    Some(t) => t,
                    None => {
                        return Err(
                            Error::MalformedEnvelope(String::from_str("missing repository name")),
                        );
                    },
                };
                let base_url = match elem_content_str(p.as_str(), &ph, &to_chars("baseURL")) {
                    Some(t) => t,
                    None => {
                        return Err(
                            Error::MalformedEnvelope(String::from_str("missing base URL")),
                        );
                    },
                };
                let protocol_version = match elem_content_str(
                    p.as_str(),
                    &ph,
                    &to_chars("protocolVersion"),
                ) {
                    Some(t) => t,
                    None => {
                        return Err(
                            Error::MalformedEnvelope(String::from_str("missing protocol version")),
                        );
                    },
                };
                let earliest_datestamp = match elem_content_str(
                    p.as_str(),
                    &ph,
                    &to_chars("earliestDatestamp"),
                ) {
                    Some(t) => t,
                    None => {
                        return Err(
                            Error::MalformedEnvelope(
                                String::from_str("missing earliest datestamp"),
                            ),
                        );
                    },
                };
                let deleted_record = match elem_content_str(
                    p.as_str(),
                    &ph,
                    &to_chars("deletedRecord"),
                ) {
                    Some(t) => t,
                    None => {
                        return Err(
                            Error::MalformedEnvelope(
                                String::from_str("missing deleted-record policy"),
                            ),
                        );
                    },
                };
                let granularity = match elem_content_str(p.as_str(), &ph, &to_chars("granularity")) {
                    Some(t) => t,
                    None => {
                        return Err(
                            Error::MalformedEnvelope(String::from_str("missing granularity")),
                        );
                    },
                };
                let admin_email = extract_spans(
                    p.as_str(),
                    &ph,
                    &to_chars("<adminEmail>"),
                    &to_chars("</adminEmail>"),
                );
                let compression = extract_spans(
                    p.as_str(),
                    &ph,
                    &to_chars("<compression>"),
                    &to_chars("</compression>"),
                );
                let description: Vec<String> = Vec::new();
                Some(
                    Identify {
                        repository_name,
                        base_url,
                        protocol_version,
                        admin_email,
                        earliest_datestamp,
                        deleted_record,
                        granularity,
                        compression,
                        description,
                    },
                )
            },
        };
        Ok(IdentifyResponse { response_date, request, error, payload })
    }

    /// Whether the envelope carried a protocol-level error.
    pub fn is_err(&self) -> (r: bool)
        ensures
            r == (self.error is Some),
    {
        self.error.is_some()
    }
}

/// The decoded result of one page of a record listing.
#[derive(Debug)]
pub struct ListRecordsResponse {
    pub response_date: String,
    pub request: String,
    pub error: Option<ResponseError>,
    pub payload: Option<ListRecords>,
}

impl ListRecordsResponse {
    /// Decodes one record-listing page from the raw response text, pairing
    /// record `i` with the `i`-th opaque payload span in document order.
    /// Fails with `MalformedEnvelope` exactly when the text is not
    /// `list_records_wf`.
    pub fn new(xml: &str) -> (r: Result<Self, Error>)
        ensures
            match r {
                Ok(resp) => {
                    &&& list_records_wf(xml@)
                    &&& Some(resp.response_date@) == elem_content(xml@, "responseDate"@, 0)
                    &&& Some(resp.request@) == elem_content(xml@, "request"@, 0)
                    &&& err_view(resp.error) == spec_error(xml@)
                    &&& match (resp.payload, elem_content(xml@, "ListRecords"@, 0)) {
                        (None, None) => true,
                        (Some(pl), Some(p)) => list_records_payload_matches(
                            pl,
                            p,
                            metadata_spans(xml@),
                        ),
                        _ => false,
                    }
                },
                Err(e) => !list_records_wf(xml@) && e is MalformedEnvelope,
            },
    {
        proof {
            reveal_strlit("ListRecords");
        }
        let hay = to_chars(xml);
        let (response_date, request, error) = match decode_envelope(xml, &hay) {
            Ok(t) => t,
            Err(e) => {
                return Err(e);
            },
        };
        let payload = match elem_content_str(xml, &hay, &to_chars("ListRecords")) {
            None => None,
            Some(p) => {
                let metas = extract_metadata(xml);
                let record = match decode_records(p.as_str(), &metas) {
                    Ok(v) => v,
                    Err(e) => {
                        return Err(e);
                    },
                };
                let ph = to_chars(p.as_str());
                let resumption_token = decode_token(p.as_str(), &ph);
                Some(ListRecords { record, resumption_token })
            },
        };
        Ok(ListRecordsResponse { response_date, request, error, payload })
    }

    /// Whether the envelope carried a protocol-level error.
    pub fn is_err(&self) -> (r: bool)
        ensures
            r == (self.error is Some),
    {
        self.error.is_some()
    }
}

} // verus!
