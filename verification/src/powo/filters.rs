//! The result filters of the plants-of-the-world API.

use vstd::prelude::*;

verus! {

use crate::engine::ToToken;

/// A result filter: narrows a search to accepted names, to records with
/// images, or to one taxonomic rank.
#[derive(Debug, PartialEq, Eq, Hash, Clone, Copy)]
pub enum Filters {
    Accepted,
    HasImages,
    Families,
    Genera,
    Species,
    Infraspecies,
}

impl ToToken for Filters {
    /// The filter's fixed wire-format token.
    open spec fn spec_token(&self) -> Seq<char> {
        match self {
            Filters::Accepted => "accepted_names"@,
            Filters::HasImages => "has_images"@,
            Filters::Families => "families_f"@,
            Filters::Genera => "genus_f"@,
            Filters::Species => "species_f"@,
            Filters::Infraspecies => "infraspecific_f"@,
        }
    }

    fn token(&self) -> (r: &'static str) {
        match self {
            Filters::Accepted => "accepted_names",
            Filters::HasImages => "has_images",
            Filters::Families => "families_f",
            Filters::Genera => "genus_f",
            Filters::Species => "species_f",
            Filters::Infraspecies => "infraspecific_f",
        }
    }
}

} // verus!
