//! The name sub-vocabulary: searchable fields of a plant-name record.

use vstd::prelude::*;

verus! {

use crate::ipni::terms::IpniQuery;

/// A searchable name field.
#[derive(Debug, PartialEq, Eq, Hash, Clone, Copy)]
pub enum Name {
    Added,
    Author,
    Basionym,
    BasionymAuthor,
    BibliographicReference,
    CitationType,
    CollectionNumber,
    Collectors,
    Distribution,
    Family,
    FullName,
    Genus,
    InPowo,
    Infrafamily,
    Infragenus,
    Infraspecies,
    Modified,
    NameStatus,
    Published,
    PublishedIn,
    PublishingAuthor,
    Rank,
    ScientificName,
    Species,
    SpeciesAuthor,
    Version,
}

impl Name {
    /// The field's fixed wire-format token.
    pub open spec fn spec_token(&self) -> Seq<char> {
        match self {
            Name::Added => "added"@,
            Name::Author => "name author"@,
            Name::Basionym => "basionym"@,
            Name::BasionymAuthor => "basionym author"@,
            Name::BibliographicReference => "bibliographic reference"@,
            Name::CitationType => "citation type"@,
            Name::CollectionNumber => "collection number"@,
            Name::Collectors => "collector team"@,
            Name::Distribution => "distribution"@,
            Name::Family => "family"@,
            Name::FullName => "full name"@,
            Name::Genus => "genus"@,
            Name::InPowo => "in powo"@,
            Name::Infrafamily => "infrafamily"@,
            Name::Infragenus => "infragenus"@,
            Name::Infraspecies => "infraspecies"@,
            Name::Modified => "modified"@,
            Name::NameStatus => "name status"@,
            Name::Published => "published"@,
            Name::PublishedIn => "published in"@,
            Name::PublishingAuthor => "publishing author"@,
            Name::Rank => "rank"@,
            Name::ScientificName => "scientific name"@,
            Name::Species => "species"@,
            Name::SpeciesAuthor => "species author"@,
            Name::Version => "version"@,
        }
    }

    /// Returns the field's fixed wire-format token.
    pub fn token(&self) -> (r: &'static str)
        ensures
            r@ == self.spec_token(),
    {
        match self {
            Name::Added => "added",
            Name::Author => "name author",
            Name::Basionym => "basionym",
            Name::BasionymAuthor => "basionym author",
            Name::BibliographicReference => "bibliographic reference",
            Name::CitationType => "citation type",
            Name::CollectionNumber => "collection number",
            Name::Collectors => "collector team",
            Name::Distribution => "distribution",
            Name::Family => "family",
            Name::FullName => "full name",
            Name::Genus => "genus",
            Name::InPowo => "in powo",
            Name::Infrafamily => "infrafamily",
            Name::Infragenus => "infragenus",
            Name::Infraspecies => "infraspecies",
            Name::Modified => "modified",
            Name::NameStatus => "name status",
            Name::Published => "published",
            Name::PublishedIn => "published in",
            Name::PublishingAuthor => "publishing author",
            Name::Rank => "rank",
            Name::ScientificName => "scientific name",
            Name::Species => "species",
            Name::SpeciesAuthor => "species author",
            Name::Version => "version",
        }
    }
}

impl From<Name> for IpniQuery {
    fn from(val: Name) -> (r: IpniQuery) {
        IpniQuery::Name(val)
    }
}

impl vstd::std_specs::convert::FromSpecImpl<Name> for IpniQuery {
    open spec fn obeys_from_spec() -> bool {
        true
    }

    open spec fn from_spec(val: Name) -> IpniQuery {
        IpniQuery::Name(val)
    }
}

} // verus!
