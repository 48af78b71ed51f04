//! The author sub-vocabulary: searchable fields of an author record.

use vstd::prelude::*;

verus! {

use crate::ipni::terms::IpniQuery;

/// A searchable author field.
#[derive(Debug, PartialEq, Eq, Hash, Clone, Copy)]
pub enum Author {
    Forename,
    FullName,
    StandardForm,
    Surname,
}

impl Author {
    /// The field's fixed wire-format token.
    pub open spec fn spec_token(&self) -> Seq<char> {
        match self {
            Author::Forename => "author forename"@,
            Author::FullName => "author name"@,
            Author::StandardForm => "author std"@,
            Author::Surname => "author surname"@,
        }
    }

    /// Returns the field's fixed wire-format token.
    pub fn token(&self) -> (r: &'static str)
        ensures
            r@ == self.spec_token(),
    {
        match self {
            Author::Forename => "author forename",
            Author::FullName => "author name",
            Author::StandardForm => "author std",
            Author::Surname => "author surname",
        }
    }
}

impl From<Author> for IpniQuery {
    fn from(val: Author) -> (r: IpniQuery) {
        IpniQuery::Author(val)
    }
}

impl vstd::std_specs::convert::FromSpecImpl<Author> for IpniQuery {
    open spec fn obeys_from_spec() -> bool {
        true
    }

    open spec fn from_spec(val: Author) -> IpniQuery {
        IpniQuery::Author(val)
    }
}

} // verus!
