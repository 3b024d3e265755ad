//! The resumable iteration engine: an explicit three-state machine over
//! one buffered page and one pending continuation token.
//!
//! The engine performs no I/O itself. One pull either yields the buffered
//! page, asks the caller to issue a follow-up request carrying only the
//! continuation token, or reports the end of the listing; the caller hands
//! the outcome of a follow-up fetch back through `finish_fetch`. A token is
//! one-shot server-side cursor state: it is consumed when the fetch is
//! requested, so a failed continuation fetch leaves the engine exhausted
//! and is never retried.

use vstd::prelude::*;

use crate::Verb;
use crate::error::Error;
use crate::response::ListRecordsResponse;
use crate::response::ResumptionToken;
use crate::scan::opt_text;

verus! {

/// The continuation a token element stands for: its token string, with an
/// empty value reading as "no more pages" (the protocol's documented way of
/// signalling end-of-list while still attaching metadata).
pub open spec fn spec_extract_token(t: Option<ResumptionToken>) -> Option<Seq<char>> {
    match t {
        None => None,
        Some(rt) => if rt.token@.len() > 0 {
            Some(rt.token@)
        } else {
            None
        },
    }
}

/// Continuation normalization: a continuation element with an empty token
/// value is equivalent, for iteration-termination purposes, to no
/// continuation element at all.
pub proof fn lemma_empty_token_is_no_token(t: ResumptionToken)
    requires
        t.token@.len() == 0,
    ensures
        spec_extract_token(Some(t)) == spec_extract_token(None),
{
}

/// Reads a page's optional continuation element, normalizing an empty token
/// string to "no continuation".
pub fn extract_token(token: Option<&ResumptionToken>) -> (r: Option<String>)
    ensures
        opt_text(r) == (match token {
            None => spec_extract_token(None),
            Some(t) => spec_extract_token(Some(*t)),
        }),
{
    match token {
        None => None,
        Some(t) => {
            if t.token.as_str().unicode_len() > 0 {
                Some(t.token.clone())
            } else {
                None
            }
        },
    }
}

/// A paginated page type the engine can drive: it decodes from raw response
/// text and reports its continuation.
pub trait ResumableResponse: Sized {
    /// The token under which the next page must be requested; `None` when
    /// the listing is complete (an absent payload, an absent continuation
    /// element, and an empty token value all read as `None`).
    spec fn spec_token(&self) -> Option<Seq<char>>;

    /// Decodes one page from raw response text.
    fn from_xml(xml: &str) -> (r: Result<Self, Error>);

    /// Reports the continuation token of this page.
    fn resumption_token(&self) -> (t: Option<String>)
        ensures
            opt_text(t) == self.spec_token(),
    ;
}

impl ResumableResponse for ListRecordsResponse {
    open spec fn spec_token(&self) -> Option<Seq<char>> {
        match self.payload {
            None => None,
            Some(pl) => spec_extract_token(pl.resumption_token),
        }
    }

    fn from_xml(xml: &str) -> (r: Result<Self, Error>) {
        ListRecordsResponse::new(xml)
    }

    fn resumption_token(&self) -> (t: Option<String>) {
        match &self.payload {
            None => None,
            Some(pl) => extract_token(pl.resumption_token.as_ref()),
        }
    }
}

/// What one pull of the engine asks of its caller: consume a page, issue a
/// follow-up request carrying only this continuation token, or stop.
pub enum Pull<R> {
    Page(R),
    Fetch(String),
    Done,
}

/// The iteration cursor state for one paginated listing: at most one page
/// buffered and not yet yielded, and at most one pending continuation
/// token. Owned exclusively by one listing; dropping it before exhaustion
/// is safe and performs no further requests.
pub struct ResumableStream<R> {
    pub verb: Verb,
    pub current_response: Option<R>,
    pub resumption_token: Option<String>,
}

impl<R: ResumableResponse> ResumableStream<R> {
    /// The terminal state: no buffered page and no pending token. Every
    /// further pull reports `Done`.
    pub open spec fn is_exhausted(self) -> bool {
        self.current_response is None && self.resumption_token is None
    }

    /// What one pull does to the state, and what it reports:
    /// a buffered page is yielded and dropped from the state; otherwise a
    /// pending token is consumed and handed out for a follow-up fetch;
    /// otherwise the engine is exhausted and nothing changes.
    pub open spec fn spec_pull(s: ResumableStream<R>) -> (ResumableStream<R>, Pull<R>) {
        match s.current_response {
            Some(r) => (
                ResumableStream { verb: s.verb, current_response: None, resumption_token: s.resumption_token },
                Pull::Page(r),
            ),
            None => match s.resumption_token {
                Some(t) => (
                    ResumableStream { verb: s.verb, current_response: None, resumption_token: None },
                    Pull::Fetch(t),
                ),
                None => (s, Pull::Done),
            },
        }
    }

    /// The state after `n` pulls, ignoring what they report.
    pub open spec fn spec_pull_n(s: ResumableStream<R>, n: nat) -> ResumableStream<R>
        decreases n,
    {
        if n == 0 {
            s
        } else {
            Self::spec_pull(Self::spec_pull_n(s, (n - 1) as nat)).0
        }
    }

    /// Idempotence of exhaustion: once the engine is exhausted, any number
    /// of further pulls leave it unchanged, and the next pull still reports
    /// `Done` — no request is ever issued again.
    pub proof fn lemma_exhausted_idempotent(s: ResumableStream<R>, n: nat)
        requires
            s.is_exhausted(),
        ensures
            Self::spec_pull_n(s, n) == s,
            Self::spec_pull(Self::spec_pull_n(s, n)).1 == Pull::<R>::Done,
        decreases n,
    {
        if n > 0 {
            Self::lemma_exhausted_idempotent(s, (n - 1) as nat);
        }
    }

    /// Wraps the first response, already fetched for the verb's initial
    /// arguments: the page is buffered and its continuation remembered.
    pub fn new(verb: Verb, first: R) -> (s: Self)
        ensures
            s.verb == verb,
            s.current_response == Some(first),
            opt_text(s.resumption_token) == first.spec_token(),
    {
        let resumption_token = first.resumption_token();
        ResumableStream { verb, current_response: Some(first), resumption_token }
    }

    /// One pull: yields the buffered page, or consumes the pending token
    /// and asks the caller to fetch under it, or reports the end.
    pub fn next_step(&mut self) -> (p: Pull<R>)
        ensures
            (*final(self), p) == Self::spec_pull(*old(self)),
            old(self).is_exhausted() ==> p == Pull::<R>::Done && *final(self) == *old(self),
    {
        match self.current_response.take() {
            Some(r) => Pull::Page(r),
            None => match self.resumption_token.take() {
                Some(t) => Pull::Fetch(t),
                None => Pull::Done,
            },
        }
    }

    /// Completes a follow-up fetch issued for `Pull::Fetch`: decodes the
    /// outcome, remembers the new page's continuation on success, and
    /// leaves the engine exhausted on failure — pagination is never resumed
    /// after a failed continuation fetch, because the token was one-shot
    /// cursor state that may already be invalidated.
    pub fn finish_fetch(&mut self, fetched: Result<String, Error>) -> (r: Result<R, Error>)
        requires
            old(self).current_response is None,
    ensures
            final(self).verb == old(self).verb,
            final(self).current_response is None,
            match r {
                Ok(resp) => opt_text(final(self).resumption_token) == resp.spec_token(),
                Err(e) => final(self).is_exhausted(),
            },
            r is Ok ==> fetched is Ok,
            fetched matches Err(e) ==> r == Result::<R, Error>::Err(e),
    {
        let xml = match fetched {
            Ok(x) => x,
            Err(e) => {
                self.resumption_token = None;
                return Err(e);
            },
        };
        match R::from_xml(xml.as_str()) {
            Ok(resp) => {
                self.resumption_token = resp.resumption_token();
                Ok(resp)
            },
            Err(e) => {
                self.resumption_token = None;
                Err(e)
            },
        }
    }
}

} // verus!
