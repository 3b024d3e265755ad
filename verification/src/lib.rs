//! Client-side core of an OAI-PMH (metadata harvesting) response pipeline:
//! decoding the protocol's XML envelope into structured fields, extracting
//! the schema-unconstrained metadata payloads verbatim, and driving resumable
//! (token-based) pagination as an explicit state machine.
//!
//! Network transport and query-string encoding live outside this crate; the
//! functions here take raw response text and plain values.

use vstd::prelude::*;

pub mod error;
pub mod metadata;
pub mod query;
pub mod response;
pub mod resumable;
pub mod scan;
pub mod transport;

verus! {

/// The protocol verb named in an outbound request.
#[derive(Clone, Copy)]
pub enum Verb {
    GetRecord,
    Identify,
    ListIdentifiers,
    ListMetadataFormats,
    ListRecords,
    ListSets,
}

impl Verb {
    /// The exact string the protocol uses for this verb in the `verb` query
    /// parameter.
    pub open spec fn spec_param(self) -> Seq<char> {
        match self {
            Verb::GetRecord => "GetRecord"@,
            Verb::Identify => "Identify"@,
            Verb::ListIdentifiers => "ListIdentifiers"@,
            Verb::ListMetadataFormats => "ListMetadataFormats"@,
            Verb::ListRecords => "ListRecords"@,
            Verb::ListSets => "ListSets"@,
        }
    }

    /// Renders the verb as its query-parameter value.
    pub fn as_param(&self) -> (r: String)
        ensures
            r@ == self.spec_param(),
    {
        match self {
            Verb::GetRecord => String::from_str("GetRecord"),
            Verb::Identify => String::from_str("Identify"),
            Verb::ListIdentifiers => String::from_str("ListIdentifiers"),
            Verb::ListMetadataFormats => String::from_str("ListMetadataFormats"),
            Verb::ListRecords => String::from_str("ListRecords"),
            Verb::ListSets => String::from_str("ListSets"),
        }
    }
}

} // verus!
