//! The typed key vocabulary of the nomenclatural-index API: three
//! sub-vocabularies unioned into one key type, so that one clause list
//! can mix author, name and publication fields freely.

pub mod author;
pub mod name;
pub mod publication;

pub use author::Author;
pub use name::Name;
pub use publication::Publication;

use vstd::prelude::*;

verus! {

use crate::engine::ToKey;

/// A typed query key of the nomenclatural-index API: a field of one of
/// its three sub-vocabularies.
#[derive(Debug, PartialEq, Eq, Hash, Clone, Copy)]
pub enum IpniQuery {
    Author(Author),
    Name(Name),
    Publication(Publication),
}

impl ToKey for IpniQuery {
    /// The wrapped field's fixed wire-format token.
    open spec fn spec_key(&self) -> Seq<char> {
        match self {
            IpniQuery::Author(author) => author.spec_token(),
            IpniQuery::Name(name) => name.spec_token(),
            IpniQuery::Publication(publication) => publication.spec_token(),
        }
    }

    fn to_key(&self) -> (r: &'static str) {
        match self {
            IpniQuery::Author(author) => author.token(),
            IpniQuery::Name(name) => name.token(),
            IpniQuery::Publication(publication) => publication.token(),
        }
    }
}

} // verus!
