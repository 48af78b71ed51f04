//! Search-term suggestion: the parameters its request sends, and the
//! shape of the suggested terms.

use vstd::prelude::*;

verus! {

use crate::engine::params_view;

/// The terms suggested for a partial query, grouped by record kind.
#[derive(Debug, Clone)]
pub struct SuggestedTerms {
    pub scientific_name: Vec<String>,
    pub author: Vec<String>,
    pub publication: Vec<String>,
}

/// The parameter list of a suggestion request: the partial query alone.
pub fn suggest_params(query: String) -> (r: Vec<(String, String)>)
    ensures
        params_view(r@) == seq![("query"@, query@)],
{
    let mut r: Vec<(String, String)> = Vec::new();
    r.push((String::from_str("query"), query));
    proof {
        assert(params_view(r@) =~= seq![("query"@, r@[0].1@)]);
    }
    r
}

} // verus!
