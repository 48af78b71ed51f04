//! The geography sub-vocabulary: searchable places of occurrence.

use vstd::prelude::*;

verus! {

use crate::powo::terms::PowoQuery;

/// A searchable geographic field.
#[derive(Debug, PartialEq, Eq, Hash, Clone, Copy)]
pub enum Geography {
    Distribution,
}

impl Geography {
    /// The field's fixed wire-format token.
    pub open spec fn spec_token(&self) -> Seq<char> {
        match self {
            Geography::Distribution => "location"@,
        }
    }

    /// Returns the field's fixed wire-format token.
    pub fn token(&self) -> (r: &'static str)
        ensures
            r@ == self.spec_token(),
    {
        match self {
            Geography::Distribution => "location",
        }
    }
}

impl From<Geography> for PowoQuery {
    fn from(val: Geography) -> (r: PowoQuery) {
        PowoQuery::Geography(val)
    }
}

impl vstd::std_specs::convert::FromSpecImpl<Geography> for PowoQuery {
    open spec fn obeys_from_spec() -> bool {
        true
    }

    open spec fn from_spec(val: Geography) -> PowoQuery {
        PowoQuery::Geography(val)
    }
}

} // verus!
