//! A typed client for two plant-database search APIs.
//!
//! The crate centres on one generic search engine: typed query keys, a
//! builder that accumulates clauses, filters and a cursor, deterministic
//! serialization of the outbound parameter list, and a rate-limit-aware
//! fetch plan whose decisions are pure and verified.  The network itself
//! is driven by an unverified shell around this library.

pub mod engine;
pub mod ipni;
pub mod powo;
pub mod fetch;
pub mod text;

use vstd::prelude::*;

verus! {

use crate::engine::{ToKey, ToToken, params_view, spec_builder_params};

/// The generic search-builder capability, shared by every concrete API
/// binding: a per-API vocabulary of typed keys, a per-API filter set, and
/// one accumulation discipline.  A builder is created empty, threaded by
/// value through `query`, `filter` and `cursor` calls — each returns a
/// new builder layered on the previous one — and materialized by
/// `search_params` into the parameter list its search sends.  A builder
/// may be cloned before a call to branch two searches off one accumulated
/// prefix.
pub trait Api: Sized {
    /// The API's typed query keys.
    type Query: ToKey;

    /// The API's result filters.
    type Filters: ToToken;

    /// The API's base location.
    spec fn spec_url() -> Seq<char>;

    /// The accumulated `(key, value)` clauses, if any call laid one.
    spec fn spec_query(&self) -> Option<Seq<(Self::Query, Seq<char>)>>;

    /// The accumulated filters, if any call laid one.
    spec fn spec_filters(&self) -> Option<Seq<Self::Filters>>;

    /// The cursor set on the builder, if one was.
    spec fn spec_cursor(&self) -> Option<Seq<char>>;

    /// Returns the API's base location.
    fn url() -> (r: &'static str)
        ensures
            r@ == Self::spec_url(),
    ;

    /// A builder with no query, no filters and no cursor.
    fn new() -> (r: Self)
        ensures
            r.spec_query() is None,
            r.spec_filters() is None,
            r.spec_cursor() is None,
    ;

    /// Lays one `(key, value)` clause onto the builder: appended after
    /// the clauses already accumulated, or starting the clause list.
    fn query(self, key: Self::Query, value: String) -> (r: Self)
        ensures
            (r.spec_query() matches Some(q) && q == (match self.spec_query() {
                Some(prev) => prev,
                None => Seq::empty(),
            }).push((key, value@))),
            r.spec_filters() == self.spec_filters(),
            r.spec_cursor() == self.spec_cursor(),
    ;

    /// Lays one filter onto the builder: appended after the filters
    /// already accumulated, or starting the filter list.
    fn filter(self, filter: Self::Filters) -> (r: Self)
        ensures
            (r.spec_filters() matches Some(f) && f == (match self.spec_filters() {
                Some(prev) => prev,
                None => Seq::empty(),
            }).push(filter)),
            r.spec_query() == self.spec_query(),
            r.spec_cursor() == self.spec_cursor(),
    ;

    /// Replaces the builder's cursor.
    fn cursor(self, cursor: String) -> (r: Self)
        ensures
            r.spec_cursor() == Some(cursor@),
            r.spec_query() == self.spec_query(),
            r.spec_filters() == self.spec_filters(),
    ;

    /// Materializes the builder into the outbound parameter list its
    /// search sends: the accumulated clauses as the structured query,
    /// each filter as its token, and the first-page cursor `*` when none
    /// was set.
    fn search_params(&self) -> (r: Vec<(String, String)>)
        ensures
            params_view(r@) == spec_builder_params(
                self.spec_query(),
                self.spec_filters(),
                self.spec_cursor(),
            ),
    ;
}

/// The errors a fetch can surface.  A rate-limited response is never an
/// error: it is retried.  A transport failure carries its message; a body
/// that does not decode is a decode failure.
#[derive(Debug, Clone, PartialEq, Eq)]
pub enum Error {
    Transport(String),
    Decode,
}

/// One decoded page of search results: the total number of hits the
/// server reports, the continuation cursor, and the records of this page.
#[derive(Debug)]
pub struct SearchResponse<R> {
    total_results: Option<i32>,
    cursor: String,
    results: Vec<R>,
}

impl<R> SearchResponse<R> {
    /// The reported total, before the default of zero is applied.
    pub closed spec fn spec_total(&self) -> Option<i32> {
        self.total_results
    }

    /// The continuation cursor.
    pub closed spec fn spec_cursor(&self) -> Seq<char> {
        self.cursor@
    }

    /// The records of this page.
    pub closed spec fn spec_results(&self) -> Seq<R> {
        self.results@
    }

    /// The reported total, or zero when the wire payload omitted it.
    pub open spec fn spec_size(&self) -> i32 {
        match self.spec_total() {
            Some(t) => t,
            None => 0,
        }
    }

    pub fn cursor(&self) -> (r: &str)
        ensures
            r@ == self.spec_cursor(),
    {
        self.cursor.as_str()
    }

    pub fn size(&self) -> (r: i32)
        ensures
            r == self.spec_size(),
    {
        match self.total_results {
            Some(t) => t,
            None => 0,
        }
    }

    pub fn results(&self) -> (r: &Vec<R>)
        ensures
            r@ == self.spec_results(),
    {
        &self.results
    }
}

/// The cursor a page reports when the wire payload names none: the first
/// page of any search.
pub fn default_cursor() -> (r: String)
    ensures
        r@ == "*"@,
{
    String::from_str("*")
}

/// The record list a page reports when the wire payload names none.
pub fn default_results<R>() -> (r: Vec<R>)
    ensures
        r@ == Seq::<R>::empty(),
{
    Vec::new()
}

/// Builds a page from the three optional wire fields, applying the
/// documented defaults: no total stays absent (and reads as zero), no
/// cursor becomes `"*"`, no record list becomes the empty list.
pub fn page_from_fields<R>(
    total: Option<i32>,
    cursor: Option<String>,
    results: Option<Vec<R>>,
) -> (r: SearchResponse<R>)
    ensures
        r.spec_total() == total,
        (match cursor {
            Some(c) => r.spec_cursor() == c@,
            None => r.spec_cursor() == "*"@,
        }),
        (match results {
            Some(rs) => r.spec_results() == rs@,
            None => r.spec_results() == Seq::<R>::empty(),
        }),
{
    SearchResponse {
        total_results: total,
        cursor: match cursor {
            Some(c) => c,
            None => default_cursor(),
        },
        results: match results {
            Some(rs) => rs,
            None => default_results(),
        },
    }
}

/// Law: a page whose wire payload omitted the total reads as size zero,
/// whatever else the page holds.
pub proof fn lemma_omitted_total_reads_zero<R>(p: SearchResponse<R>)
    requires
        p.spec_total() is None,
    ensures
        p.spec_size() == 0,
{
}

} // verus!
