//! Search requests and the paginator that walks their results.
//!
//! The paginator is a state machine: `poll` either hands out the next
//! buffered record, asks for one request, or ends the sequence; the caller
//! performs the request and hands its outcome to `deliver`.
use crate::base62::DecodeError;
use crate::params::{query_pairs, query_text, ProjectSearchParams};
use crate::query_string::join_pairs;
use crate::types::{ProjectResult, SearchResults};
use vstd::prelude::*;
use vstd::string::StringExecFns;

verus! {

/// Why a request or its decoding failed.
#[derive(Debug, Clone, PartialEq, Eq)]
pub enum Error {
    /// The transport could not complete the request.
    TransportFailure(String),
    /// The response body does not have the expected shape.
    DecodeFailure(String),
    /// An identifier could not be encoded or decoded.
    EncodingFailure(DecodeError),
}

pub open spec fn search_base() -> Seq<char> {
    "https://api.modrinth.com/v2/search?"@
}

/// The address of a search with the given pairs.
pub open spec fn search_url_text(p: ProjectSearchParams, limit: Option<usize>) -> Seq<char> {
    search_base() + join_pairs(query_pairs(p, limit))
}

/// The address of a search with `limit` in place of the limit field.
pub fn search_url_with_limit(params: &ProjectSearchParams, limit: Option<usize>) -> (r: String)
    ensures
        r@ == search_url_text(*params, limit),
{
    "https://api.modrinth.com/v2/search?".to_owned().concat(
        params.query_string_with_limit(limit).as_str(),
    )
}

/// The address of a search: the endpoint followed by the query string.
pub fn search_url(params: &ProjectSearchParams) -> (r: String)
    ensures
        r@ == search_base() + query_text(*params),
{
    search_url_with_limit(params, params.limit)
}

/// Where a paginator stands.
#[derive(Debug, Clone, Copy, PartialEq, Eq)]
pub enum PaginatorPhase {
    /// No request has succeeded yet: the next one asks for a single hit to
    /// learn the total.
    Probing,
    /// The total is known: requests use the caller's parameters.
    Paging,
    /// A request returned no hits.
    Exhausted,
    /// A request failed; the error is kept.
    Failed,
}

/// What a paginator asks of its caller.
#[derive(Debug, Clone, PartialEq, Eq)]
pub enum Step {
    /// The next record of the sequence.
    Yield(ProjectResult),
    /// Perform a search at this address and deliver the outcome.
    Fetch(String),
    /// The sequence has ended.
    Done,
}

/// A lazy sequence of search hits, fetched page by page.
pub struct SearchResultsPaginator {
    params: ProjectSearchParams,
    token: Option<String>,
    results: Vec<ProjectResult>,
    total_hits: Option<usize>,
    error: Option<Error>,
    phase: PaginatorPhase,
    received: Ghost<Seq<ProjectResult>>,
    handed_out: Ghost<Seq<ProjectResult>>,
}

impl SearchResultsPaginator {
    /// The parameters of the next request; its offset is the cursor.
    pub closed spec fn params_spec(&self) -> ProjectSearchParams {
        self.params
    }

    /// Records fetched and not yet handed out, front first.
    pub closed spec fn buffer(&self) -> Seq<ProjectResult> {
        self.results@
    }

    pub closed spec fn total_hits_spec(&self) -> Option<usize> {
        self.total_hits
    }

    pub closed spec fn error_spec(&self) -> Option<Error> {
        self.error
    }

    pub closed spec fn phase_spec(&self) -> PaginatorPhase {
        self.phase
    }

    pub closed spec fn token_spec(&self) -> Option<String> {
        self.token
    }

    /// Every hit of every page delivered so far, in order.
    pub closed spec fn received(&self) -> Seq<ProjectResult> {
        self.received@
    }

    /// Every record handed out so far, in order.
    pub closed spec fn handed_out(&self) -> Seq<ProjectResult> {
        self.handed_out@
    }

    /// The cursor: the offset of the next request.
    pub open spec fn cursor(&self) -> nat {
        match self.params_spec().offset {
            Some(n) => n as nat,
            None => 0,
        }
    }

    /// The total is known exactly when a request has succeeded, and an
    /// error is kept exactly when the paginator has failed.
    pub open spec fn wf(&self) -> bool {
        &&& (self.phase_spec() == PaginatorPhase::Probing) ==> self.total_hits_spec() is None
        &&& (self.phase_spec() == PaginatorPhase::Paging || self.phase_spec()
            == PaginatorPhase::Exhausted) ==> self.total_hits_spec() is Some
        &&& (self.phase_spec() == PaginatorPhase::Failed) <==> self.error_spec() is Some
        &&& self.received() == self.handed_out() + self.buffer()
    }

    pub fn new(params: ProjectSearchParams, token: Option<String>) -> (r: Self)
        ensures
            r.wf(),
            r.params_spec() == params,
            r.token_spec() == token,
            r.buffer().len() == 0,
            r.total_hits_spec() is None,
            r.error_spec() is None,
            r.phase_spec() == PaginatorPhase::Probing,
            r.received().len() == 0,
            r.handed_out().len() == 0,
    {
        let r = SearchResultsPaginator {
            params,
            token,
            results: Vec::new(),
            total_hits: None,
            error: None,
            phase: PaginatorPhase::Probing,
            received: Ghost(Seq::empty()),
            handed_out: Ghost(Seq::empty()),
        };
        assert(r.received() =~= r.handed_out() + r.buffer());
        r
    }

    /// The next thing to do. A buffered record is handed out first, in
    /// order; with none left, a live paginator asks for a request (a probe
    /// of one hit while the total is unknown) and a finished one ends.
    pub fn poll(&mut self) -> (r: Step)
        requires
            old(self).wf(),
        ensures
            final(self).wf(),
            final(self).params_spec() == old(self).params_spec(),
            final(self).token_spec() == old(self).token_spec(),
            final(self).total_hits_spec() == old(self).total_hits_spec(),
            final(self).error_spec() == old(self).error_spec(),
            final(self).phase_spec() == old(self).phase_spec(),
            final(self).received() == old(self).received(),
            old(self).buffer().len() > 0 ==> r == Step::Yield(old(self).buffer()[0])
                && final(self).buffer() == old(self).buffer().drop_first()
                && final(self).handed_out() == old(self).handed_out().push(old(self).buffer()[0]),
            old(self).buffer().len() == 0 ==> final(self).handed_out() == old(self).handed_out(),
            old(self).buffer().len() == 0 ==> final(self).buffer().len() == 0,
            old(self).buffer().len() == 0 && (old(self).phase_spec() == PaginatorPhase::Exhausted
                || old(self).phase_spec() == PaginatorPhase::Failed) ==> r == Step::Done,
            old(self).buffer().len() == 0 && old(self).phase_spec() == PaginatorPhase::Probing
                ==> (r matches Step::Fetch(url) && url@ == search_url_text(
                old(self).params_spec(),
                Some(1usize),
            )),
            old(self).buffer().len() == 0 && old(self).phase_spec() == PaginatorPhase::Paging
                ==> (r matches Step::Fetch(url) && url@ == search_url_text(
                old(self).params_spec(),
                old(self).params_spec().limit,
            )),
    {
        if self.results.len() > 0 {
            let first = self.results.remove(0);
            self.handed_out = Ghost(self.handed_out@.push(first));
            assert(self.results@ =~= old(self).results@.drop_first());
            assert(self.received@ =~= self.handed_out@ + self.results@);
            return Step::Yield(first);
        }
        match self.phase {
            PaginatorPhase::Probing => Step::Fetch(search_url_with_limit(&self.params, Some(1))),
            PaginatorPhase::Paging => Step::Fetch(
                search_url_with_limit(&self.params, self.params.limit),
            ),
            _ => Step::Done,
        }
    }

    /// Takes the outcome of the request that `poll` asked for. A failure is
    /// kept and ends the sequence. A page fixes the total if it was unknown,
    /// moves the cursor on by the number of hits it holds, and hands out its
    /// first hit; a page without hits ends the sequence.
    pub fn deliver(&mut self, outcome: Result<SearchResults, Error>) -> (r: Option<ProjectResult>)
        requires
            old(self).wf(),
            old(self).buffer().len() == 0,
            old(self).phase_spec() == PaginatorPhase::Probing || old(self).phase_spec()
                == PaginatorPhase::Paging,
            outcome is Ok ==> old(self).cursor() + outcome->Ok_0.hits@.len() <= usize::MAX,
        ensures
            final(self).wf(),
            final(self).token_spec() == old(self).token_spec(),
            outcome matches Err(e) ==> r is None && final(self).error_spec() == Some(e)
                && final(self).phase_spec() == PaginatorPhase::Failed
                && final(self).params_spec() == old(self).params_spec()
                && final(self).total_hits_spec() == old(self).total_hits_spec()
                && final(self).buffer().len() == 0
                && final(self).received() == old(self).received()
                && final(self).handed_out() == old(self).handed_out(),
            outcome matches Ok(page) ==> {
                &&& final(self).error_spec() is None
                &&& final(self).received() == old(self).received() + page.hits@
                &&& final(self).total_hits_spec() == (if old(self).total_hits_spec() is None {
                    Some(page.total_hits)
                } else {
                    old(self).total_hits_spec()
                })
                &&& final(self).params_spec().offset == Some(
                    (old(self).cursor() + page.hits@.len()) as usize,
                )
                &&& final(self).params_spec().query == old(self).params_spec().query
                &&& final(self).params_spec().facets == old(self).params_spec().facets
                &&& final(self).params_spec().index == old(self).params_spec().index
                &&& final(self).params_spec().limit == old(self).params_spec().limit
                &&& final(self).params_spec().filters == old(self).params_spec().filters
                &&& (page.hits@.len() == 0 ==> r is None && final(self).buffer().len() == 0
                    && final(self).handed_out() == old(self).handed_out()
                    && final(self).phase_spec() == PaginatorPhase::Exhausted)
                &&& (page.hits@.len() > 0 ==> r == Some(page.hits@[0]) && final(self).handed_out()
                    == old(self).handed_out().push(page.hits@[0]) && final(self).buffer()
                    == page.hits@.drop_first() && final(self).phase_spec()
                    == PaginatorPhase::Paging)
            },
    {
        match outcome {
            Err(e) => {
                self.error = Some(e);
                self.phase = PaginatorPhase::Failed;
                None
            },
            Ok(page) => {
                if self.total_hits.is_none() {
                    self.total_hits = Some(page.total_hits);
                }
                let mut hits = page.hits;
                let cursor = match self.params.offset {
                    Some(n) => n,
                    None => 0,
                };
                self.params.offset = Some(cursor + hits.len());
                let ghost all = hits@;
                self.received = Ghost(self.received@ + all);
                if hits.len() == 0 {
                    self.phase = PaginatorPhase::Exhausted;
                    assert(self.received@ =~= self.handed_out@ + self.results@);
                    None
                } else {
                    self.phase = PaginatorPhase::Paging;
                    let first = hits.remove(0);
                    self.results = hits;
                    self.handed_out = Ghost(self.handed_out@.push(first));
                    assert(self.received@ =~= self.handed_out@ + self.results@);
                    Some(first)
                }
            },
        }
    }

    /// No lower bound on what is left; the last known total as the upper
    /// bound, once a request has succeeded.
    pub fn size_hint(&self) -> (r: (usize, Option<usize>))
        ensures
            r == (0usize, self.total_hits_spec()),
    {
        (0, self.total_hits)
    }

    /// The error that ended the sequence, if one did.
    pub fn error(&self) -> (r: &Option<Error>)
        ensures
            *r == self.error_spec(),
    {
        &self.error
    }

    /// The bearer token handed to every request.
    pub fn token(&self) -> (r: &Option<String>)
        ensures
            *r == self.token_spec(),
    {
        &self.token
    }

    /// The offset of the next request.
    pub fn cursor_value(&self) -> (r: usize)
        ensures
            r == self.cursor(),
    {
        match self.params.offset {
            Some(n) => n,
            None => 0,
        }
    }

    pub fn phase(&self) -> (r: PaginatorPhase)
        ensures
            r == self.phase_spec(),
    {
        self.phase
    }
}

/// Records come out first in, first out: at every step the records handed
/// out, followed by those still buffered, are exactly the hits received, in
/// order. Once the buffer is empty, every hit received has been handed out.
pub proof fn lemma_fifo(p: &SearchResultsPaginator)
    requires
        p.wf(),
    ensures
        p.handed_out().len() <= p.received().len(),
        forall|i: int| 0 <= i < p.handed_out().len() ==> p.handed_out()[i] == #[trigger] p.received()[i],
        p.buffer().len() == 0 ==> p.handed_out() == p.received(),
{
    assert(p.buffer().len() == 0 ==> p.handed_out() =~= p.received());
}

/// A paginator over the hits of a search.
pub fn get_search_iter(params: ProjectSearchParams, token: Option<String>) -> (r:
    SearchResultsPaginator)
    ensures
        r.wf(),
        r.params_spec() == params,
        r.token_spec() == token,
        r.buffer().len() == 0,
        r.phase_spec() == PaginatorPhase::Probing,
        r.received().len() == 0,
        r.handed_out().len() == 0,
{
    SearchResultsPaginator::new(params, token)
}

} // verus!
