//! The publication sub-vocabulary: searchable fields of a publication
//! record.

use vstd::prelude::*;

verus! {

use crate::ipni::terms::IpniQuery;

/// A searchable publication field.
#[derive(Debug, PartialEq, Eq, Hash, Clone, Copy)]
pub enum Publication {
    StandardForm,
    BphNumber,
    Date,
    Isbn,
    Issn,
    LcNumber,
    PrecededBy,
    SupercededBy,
    Title,
    Tl2Author,
    Tl2Number,
}

impl Publication {
    /// The field's fixed wire-format token.
    pub open spec fn spec_token(&self) -> Seq<char> {
        match self {
            Publication::StandardForm => "publication std"@,
            Publication::BphNumber => "bph number"@,
            Publication::Date => "date"@,
            Publication::Isbn => "isbn"@,
            Publication::Issn => "issn"@,
            Publication::LcNumber => "lc number"@,
            Publication::PrecededBy => "preceded by"@,
            Publication::SupercededBy => "superceded by"@,
            Publication::Title => "publication title"@,
            Publication::Tl2Author => "tl2 author"@,
            Publication::Tl2Number => "tl2 number"@,
        }
    }

    /// Returns the field's fixed wire-format token.
    pub fn token(&self) -> (r: &'static str)
        ensures
            r@ == self.spec_token(),
    {
        match self {
            Publication::StandardForm => "publication std",
            Publication::BphNumber => "bph number",
            Publication::Date => "date",
            Publication::Isbn => "isbn",
            Publication::Issn => "issn",
            Publication::LcNumber => "lc number",
            Publication::PrecededBy => "preceded by",
            Publication::SupercededBy => "superceded by",
            Publication::Title => "publication title",
            Publication::Tl2Author => "tl2 author",
            Publication::Tl2Number => "tl2 number",
        }
    }
}

impl From<Publication> for IpniQuery {
    fn from(val: Publication) -> (r: IpniQuery) {
        IpniQuery::Publication(val)
    }
}

impl vstd::std_specs::convert::FromSpecImpl<Publication> for IpniQuery {
    open spec fn obeys_from_spec() -> bool {
        true
    }

    open spec fn from_spec(val: Publication) -> IpniQuery {
        IpniQuery::Publication(val)
    }
}

} // verus!
