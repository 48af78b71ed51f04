//! The typed key vocabulary of the plants-of-the-world API: three
//! sub-vocabularies unioned into one key type, so that one clause list
//! can mix characteristic, geographic and naming fields freely.

pub mod characteristic;
pub mod geography;
pub mod name;

pub use characteristic::Characteristic;
pub use geography::Geography;
pub use name::Name;

use vstd::prelude::*;

verus! {

use crate::engine::ToKey;

/// A typed query key of the plants-of-the-world API: a field of one of
/// its three sub-vocabularies.
#[derive(Debug, PartialEq, Eq, Hash, Clone, Copy)]
pub enum PowoQuery {
    Characteristic(Characteristic),
    Geography(Geography),
    Name(Name),
}

impl ToKey for PowoQuery {
    /// The wrapped field's fixed wire-format token.
    open spec fn spec_key(&self) -> Seq<char> {
        match self {
            PowoQuery::Characteristic(characteristic) => characteristic.spec_token(),
            PowoQuery::Geography(geography) => geography.spec_token(),
            PowoQuery::Name(name) => name.spec_token(),
        }
    }

    fn to_key(&self) -> (r: &'static str) {
        match self {
            PowoQuery::Characteristic(characteristic) => characteristic.token(),
            PowoQuery::Geography(geography) => geography.token(),
            PowoQuery::Name(name) => name.token(),
        }
    }
}

} // verus!
