//! Outbound request parameters: the verb and its verb-specific arguments,
//! as plain values. Encoding them into a query string and issuing the HTTP
//! call are the transport collaborator's work, outside this crate.

use vstd::prelude::*;

use crate::Verb;

verus! {

/// One outbound request: the verb's parameter value plus its arguments.
pub struct Query<T> {
    pub verb: String,
    pub args: T,
}

impl<T> Query<T> {
    /// Pairs a verb with its arguments.
    pub fn new(verb: Verb, args: T) -> (q: Self)
        ensures
            q.verb@ == verb.spec_param(),
            q.args == args,
    {
        Query { verb: verb.as_param(), args }
    }
}

/// Arguments of a single-record fetch.
pub struct GetRecordArgs {
    pub identifier: String,
    pub metadata_prefix: String,
}

impl GetRecordArgs {
    /// Names the record and the metadata format to fetch it in.
    pub fn new(identifier: &str, metadata_prefix: &str) -> (a: Self)
        ensures
            a.identifier@ == identifier@,
            a.metadata_prefix@ == metadata_prefix@,
    {
        GetRecordArgs {
            identifier: String::from_str(identifier),
            metadata_prefix: String::from_str(metadata_prefix),
        }
    }
}

/// Arguments of a record listing: the metadata format, and optional
/// datestamp bounds and set filter.
pub struct ListRecordsArgs {
    pub metadata_prefix: String,
    pub from: Option<String>,
    pub until: Option<String>,
    pub set: Option<String>,
}

impl ListRecordsArgs {
    /// Lists records in the given metadata format, unbounded and unfiltered.
    pub fn new(metadata_prefix: &str) -> (a: Self)
        ensures
            a.metadata_prefix@ == metadata_prefix@,
            a.from is None,
            a.until is None,
            a.set is None,
    {
        ListRecordsArgs {
            metadata_prefix: String::from_str(metadata_prefix),
            from: None,
            until: None,
            set: None,
        }
    }

    /// Bounds the listing below by a datestamp.
    pub fn from(self, from: &str) -> (a: Self)
        ensures
            a.metadata_prefix == self.metadata_prefix,
            a.from matches Some(f) && f@ == from@,
            a.until == self.until,
            a.set == self.set,
    {
        ListRecordsArgs { from: Some(String::from_str(from)), ..self }
    }

    /// Bounds the listing above by a datestamp.
    pub fn until(self, until: &str) -> (a: Self)
        ensures
            a.metadata_prefix == self.metadata_prefix,
            a.from == self.from,
            a.until matches Some(u) && u@ == until@,
            a.set == self.set,
    {
        ListRecordsArgs { until: Some(String::from_str(until)), ..self }
    }

    /// Restricts the listing to one set.
    pub fn set(self, set: &str) -> (a: Self)
        ensures
            a.metadata_prefix == self.metadata_prefix,
            a.from == self.from,
            a.until == self.until,
            a.set matches Some(s) && s@ == set@,
    {
        ListRecordsArgs { set: Some(String::from_str(set)), ..self }
    }
}

/// The only argument of a follow-up request: the continuation token,
/// self-describing server-side state.
pub struct ResumableArgs {
    pub resumption_token: String,
}

impl ResumableArgs {
    /// Carries the continuation token, and nothing else.
    pub fn new(resumption_token: &str) -> (a: Self)
        ensures
            a.resumption_token@ == resumption_token@,
    {
        ResumableArgs { resumption_token: String::from_str(resumption_token) }
    }
}

} // verus!
