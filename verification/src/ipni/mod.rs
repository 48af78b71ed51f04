//! The binding of the nomenclatural-index API: its builder, its record
//! shapes, and the paths and parameters of its lookups.

pub mod filters;
pub mod suggest;
pub mod terms;

pub use terms::{IpniQuery, Name};

use vstd::prelude::*;

verus! {

use crate::Api;
use crate::engine::{
    IPNI_URL,
    builder_params,
    free_text_params,
    lemma_clauses_view_push,
    opt_clauses_view,
    opt_cursor_view,
    opt_filters_view,
    params_view,
    spec_build_params,
};
use self::filters::Filters;

/// A search builder of the nomenclatural-index API.
#[derive(Debug, Clone)]
pub struct Ipni {
    query: Option<Vec<(IpniQuery, String)>>,
    filters: Option<Vec<Filters>>,
    cursor: Option<String>,
}

impl Api for Ipni {
    type Query = IpniQuery;

    type Filters = Filters;

    closed spec fn spec_url() -> Seq<char> {
        IPNI_URL@
    }

    closed spec fn spec_query(&self) -> Option<Seq<(IpniQuery, Seq<char>)>> {
        opt_clauses_view(self.query)
    }

    closed spec fn spec_filters(&self) -> Option<Seq<Filters>> {
        opt_filters_view(self.filters)
    }

    closed spec fn spec_cursor(&self) -> Option<Seq<char>> {
        opt_cursor_view(self.cursor)
    }

    fn url() -> (r: &'static str) {
        IPNI_URL
    }

    fn new() -> (r: Self) {
        Ipni { query: None, filters: None, cursor: None }
    }

    fn query(self, key: IpniQuery, value: String) -> (r: Self) {
        let Ipni { query, filters, cursor } = self;
        let mut clauses: Vec<(IpniQuery, String)> = match query {
            Some(v) => v,
            None => Vec::new(),
        };
        let ghost prev = clauses@;
        clauses.push((key, value));
        proof {
            lemma_clauses_view_push(prev, key, value);
        }
        Ipni { query: Some(clauses), filters, cursor }
    }

    fn filter(self, filter: Filters) -> (r: Self) {
        let Ipni { query, filters, cursor } = self;
        let mut accumulated: Vec<Filters> = match filters {
            Some(v) => v,
            None => Vec::new(),
        };
        accumulated.push(filter);
        Ipni { query, filters: Some(accumulated), cursor }
    }

    fn cursor(self, cursor: String) -> (r: Self) {
        let Ipni { query, filters, cursor: _ } = self;
        Ipni { query, filters, cursor: Some(cursor) }
    }

    fn search_params(&self) -> (r: Vec<(String, String)>) {
        builder_params(&self.query, &self.filters, &self.cursor)
    }
}

impl Ipni {
    /// The parameter list of a one-off free-text search: the text
    /// verbatim under `q`, the first page, no filters.
    pub fn search_params_for(query: String) -> (r: Vec<(String, String)>)
        ensures
            params_view(r@) == spec_build_params(Some(query@), None, "*"@),
    {
        free_text_params::<IpniQuery>(query)
    }

    /// The method path of a name lookup by identifier.
    pub fn name_path(id: &str) -> (r: String)
        ensures
            r@ == "n/"@ + id@,
    {
        let mut path = "n/".to_owned();
        path.append(id);
        path
    }

    /// The method path of a publication lookup by identifier.
    pub fn publication_path(id: &str) -> (r: String)
        ensures
            r@ == "p/"@ + id@,
    {
        let mut path = "p/".to_owned();
        path.append(id);
        path
    }

    /// The method path of an author lookup by identifier.
    pub fn author_path(id: &str) -> (r: String)
        ensures
            r@ == "a/"@ + id@,
    {
        let mut path = "a/".to_owned();
        path.append(id);
        path
    }
}

/// A name record as cited: the name and its identifier.
#[derive(Debug, Clone)]
pub struct Citation {
    pub name: String,
    pub id: String,
}

/// An author record: its identifier and the author's standard form.
#[derive(Debug, Clone)]
pub struct Author {
    pub id: String,
    pub standard_form: String,
}

/// A publication record: its identifier and title.
#[derive(Debug, Clone)]
pub struct Publication {
    pub id: String,
    pub title: String,
}

/// One search result of the nomenclatural-index API: a citation, an
/// author or a publication record, told apart by the record type the wire
/// payload names.
#[derive(Debug, Clone)]
pub enum IpniResult {
    Citation(Citation),
    Author(Author),
    Publication(Publication),
}

} // verus!
