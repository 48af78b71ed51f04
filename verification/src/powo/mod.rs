//! The binding of the plants-of-the-world API: its builder, its record
//! shapes, and the path and parameters of its taxon lookup.

pub mod filters;
pub mod terms;

pub use terms::{Name, PowoQuery};

use std::collections::HashMap;
use vstd::prelude::*;

verus! {

use crate::Api;
use crate::engine::{
    POWO_URL,
    builder_params,
    free_text_params,
    lemma_clauses_view_push,
    opt_clauses_view,
    opt_cursor_view,
    opt_filters_view,
    params_view,
    spec_build_params,
};
use crate::text::{join_with, join_comma, texts_view};
use self::filters::Filters;

/// A search builder of the plants-of-the-world API.
#[derive(Debug, Clone)]
pub struct Powo {
    query: Option<Vec<(PowoQuery, String)>>,
    filters: Option<Vec<Filters>>,
    cursor: Option<String>,
}

impl Api for Powo {
    type Query = PowoQuery;

    type Filters = Filters;

    closed spec fn spec_url() -> Seq<char> {
        POWO_URL@
    }

    closed spec fn spec_query(&self) -> Option<Seq<(PowoQuery, Seq<char>)>> {
        opt_clauses_view(self.query)
    }

    closed spec fn spec_filters(&self) -> Option<Seq<Filters>> {
        opt_filters_view(self.filters)
    }

    closed spec fn spec_cursor(&self) -> Option<Seq<char>> {
        opt_cursor_view(self.cursor)
    }

    fn url() -> (r: &'static str) {
        POWO_URL
    }

    fn new() -> (r: Self) {
        Powo { query: None, filters: None, cursor: None }
    }

    fn query(self, key: PowoQuery, value: String) -> (r: Self) {
        let Powo { query, filters, cursor } = self;
        let mut clauses: Vec<(PowoQuery, String)> = match query {
            Some(v) => v,
            None => Vec::new(),
        };
        let ghost prev = clauses@;
        clauses.push((key, value));
        proof {
            lemma_clauses_view_push(prev, key, value);
        }
        Powo { query: Some(clauses), filters, cursor }
    }

    fn filter(self, filter: Filters) -> (r: Self) {
        let Powo { query, filters, cursor } = self;
        let mut accumulated: Vec<Filters> = match filters {
            Some(v) => v,
            None => Vec::new(),
        };
        accumulated.push(filter);
        Powo { query, filters: Some(accumulated), cursor }
    }

    fn cursor(self, cursor: String) -> (r: Self) {
        let Powo { query, filters, cursor: _ } = self;
        Powo { query, filters, cursor: Some(cursor) }
    }

    fn search_params(&self) -> (r: Vec<(String, String)>) {
        builder_params(&self.query, &self.filters, &self.cursor)
    }
}

impl Powo {
    /// The parameter list of a one-off free-text search: the text
    /// verbatim under `q`, the first page, no filters.
    pub fn search_params_for(query: String) -> (r: Vec<(String, String)>)
        ensures
            params_view(r@) == spec_build_params(Some(query@), None, "*"@),
    {
        free_text_params::<PowoQuery>(query)
    }

    /// The method path of a taxon lookup by its identifier's text.
    pub fn taxon_path(id: &str) -> (r: String)
        ensures
            r@ == "taxon/"@ + id@,
    {
        let mut path = "taxon/".to_owned();
        path.append(id);
        path
    }

    /// The parameter list of a taxon lookup: the requested extra fields,
    /// comma-joined under `fields`, or nothing when none were requested.
    pub fn lookup_params(extra: &Option<Vec<String>>) -> (r: Vec<(String, String)>)
        ensures
            (extra matches Some(fields) ==> params_view(r@) == seq![
                ("fields"@, join_with(texts_view(fields@), seq![','])),
            ]),
            extra is None ==> params_view(r@) == Seq::<(Seq<char>, Seq<char>)>::empty(),
    {
        match extra {
            Some(fields) => {
                let mut r: Vec<(String, String)> = Vec::new();
                r.push((String::from_str("fields"), join_comma(fields)));
                proof {
                    assert(params_view(r@) =~= seq![("fields"@, r@[0].1@)]);
                }
                r
            },
            None => {
                let r: Vec<(String, String)> = Vec::new();
                proof {
                    assert(params_view(r@) =~= Seq::<(Seq<char>, Seq<char>)>::empty());
                }
                r
            },
        }
    }
}

/// One place a taxon occurs in.
#[derive(Debug, Clone)]
pub struct Distribution {
    pub name: String,
}

/// Where a taxon is native and where it was introduced.
#[derive(Debug, Clone)]
pub struct DistributionMap {
    pub natives: Vec<Distribution>,
    pub introduced: Option<Vec<Distribution>>,
}

/// An image of a taxon.
#[derive(Debug, Clone)]
pub struct Image {
    pub thumbnail: String,
    pub fullsize: String,
    pub caption: Option<String>,
}

/// The accepted name a synonym resolves to.  The identifier holds the
/// URN's text.
#[derive(Debug, Clone)]
pub struct Synonym {
    pub fq_id: String,
    pub url: String,
    pub name: String,
    pub accepted: bool,
    pub author: Option<String>,
    pub kingdom: Option<String>,
}

/// One search result of the plants-of-the-world API.  The identifier
/// holds the URN's text.
#[derive(Debug, Clone)]
pub struct PowoResult {
    pub accepted: bool,
    pub author: Option<String>,
    pub kingdom: String,
    pub family: String,
    pub name: String,
    pub rank: String,
    pub snippet: Option<String>,
    pub synonym_of: Option<Synonym>,
    pub url: String,
    pub fq_id: String,
    pub images: Vec<Image>,
}

/// A taxon as referred to from another record.  The identifier holds the
/// URN's text.
#[derive(Debug, Clone)]
pub struct Taxon {
    pub fq_id: String,
    pub name: String,
    pub author: String,
    pub rank: String,
    pub taxonomic_status: String,
}

/// One description of a taxon.
#[derive(Debug, Clone)]
pub struct Description {
    pub description: String,
    pub source: Option<String>,
}

/// The descriptions one source gives of a taxon, grouped by topic.
#[derive(Debug, Clone)]
pub struct Descriptions {
    pub as_taxon: String,
    pub source: String,
    pub from_synonym: bool,
    pub descriptions: HashMap<String, Vec<Description>>,
}

/// A full taxon record, as a lookup returns it.  The identifier holds the
/// URN's text.
#[derive(Debug, Clone)]
pub struct PowoLookup {
    pub modified: Option<String>,
    pub bibliographic_citation: String,
    pub genus: String,
    pub taxonomic_status: String,
    pub kingdom: String,
    pub phylum: String,
    pub class: String,
    pub subclass: String,
    pub order: String,
    pub family: String,
    pub nomenclatural_code: String,
    pub source: String,
    pub name_published_in_year: Option<u32>,
    pub taxon_remarks: Option<String>,
    pub nomenclatural_status: String,
    pub lifeform: String,
    pub climate: String,
    pub hybrid: bool,
    pub accepted: Option<Taxon>,
    pub paftol_id: Option<String>,
    pub synonym: bool,
    pub plantae: bool,
    pub fungi: bool,
    pub fq_id: String,
    pub name: String,
    pub authors: Option<String>,
    pub species: String,
    pub infraspecies: Option<String>,
    pub rank: String,
    pub reference: Option<String>,
    pub classification: Vec<Taxon>,
    pub basionym_of: Option<Vec<Taxon>>,
    pub basionym: Option<Taxon>,
    pub synonyms: Option<Vec<Taxon>>,
    pub distribution: Option<DistributionMap>,
    pub descriptions: Option<HashMap<String, Descriptions>>,
    pub locations: Option<Vec<String>>,
}

} // verus!
