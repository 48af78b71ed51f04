//! The name sub-vocabulary: searchable naming fields of a taxon.

use vstd::prelude::*;

verus! {

use crate::powo::terms::PowoQuery;

/// A searchable naming field.
#[derive(Debug, PartialEq, Eq, Hash, Clone, Copy)]
pub enum Name {
    FullName,
    CommonName,
    Kingdom,
    Family,
    Genus,
    Species,
    Author,
}

impl Name {
    /// The field's fixed wire-format token.
    pub open spec fn spec_token(&self) -> Seq<char> {
        match self {
            Name::FullName => "name"@,
            Name::CommonName => "common name"@,
            Name::Kingdom => "kingdom"@,
            Name::Family => "family"@,
            Name::Genus => "genus"@,
            Name::Species => "species"@,
            Name::Author => "author"@,
        }
    }

    /// Returns the field's fixed wire-format token.
    pub fn token(&self) -> (r: &'static str)
        ensures
            r@ == self.spec_token(),
    {
        match self {
            Name::FullName => "name",
            Name::CommonName => "common name",
            Name::Kingdom => "kingdom",
            Name::Family => "family",
            Name::Genus => "genus",
            Name::Species => "species",
            Name::Author => "author",
        }
    }
}

impl From<Name> for PowoQuery {
    fn from(val: Name) -> (r: PowoQuery) {
        PowoQuery::Name(val)
    }
}

impl vstd::std_specs::convert::FromSpecImpl<Name> for PowoQuery {
    open spec fn obeys_from_spec() -> bool {
        true
    }

    open spec fn from_spec(val: Name) -> PowoQuery {
        PowoQuery::Name(val)
    }
}

} // verus!
