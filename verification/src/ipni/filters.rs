//! The result filters of the nomenclatural-index API: rank toggles.

use vstd::prelude::*;

verus! {

use crate::engine::ToToken;

/// A rank filter: narrows a search to records of one taxonomic rank.
#[derive(Debug, PartialEq, Eq, Hash, Clone, Copy)]
pub enum Filters {
    Familial,
    Infrafamilial,
    Generic,
    Infrageneric,
    Specific,
    Infraspecific,
}

impl ToToken for Filters {
    /// The filter's fixed wire-format token.
    open spec fn spec_token(&self) -> Seq<char> {
        match self {
            Filters::Familial => "f_familial"@,
            Filters::Infrafamilial => "f_infrafamilial"@,
            Filters::Generic => "f_generic"@,
            Filters::Infrageneric => "f_infrageneric"@,
            Filters::Specific => "f_specific"@,
            Filters::Infraspecific => "f_infraspecific"@,
        }
    }

    fn token(&self) -> (r: &'static str) {
        match self {
            Filters::Familial => "f_familial",
            Filters::Infrafamilial => "f_infrafamilial",
            Filters::Generic => "f_generic",
            Filters::Infrageneric => "f_infrageneric",
            Filters::Specific => "f_specific",
            Filters::Infraspecific => "f_infraspecific",
        }
    }
}

} // verus!
