//! The characteristic sub-vocabulary: searchable traits of a plant.

use vstd::prelude::*;

verus! {

use crate::powo::terms::PowoQuery;

/// A searchable plant characteristic.
#[derive(Debug, PartialEq, Eq, Hash, Clone, Copy)]
pub enum Characteristic {
    Summary,
    Appearance,
    Characteristic,
    Flower,
    Fruit,
    Leaf,
    Inflorescence,
    Seed,
    Cloning,
    Use,
}

impl Characteristic {
    /// The characteristic's fixed wire-format token.
    pub open spec fn spec_token(&self) -> Seq<char> {
        match self {
            Characteristic::Summary => "summary"@,
            Characteristic::Appearance => "appearance"@,
            Characteristic::Characteristic => "characteristic"@,
            Characteristic::Flower => "flower"@,
            Characteristic::Fruit => "fruit"@,
            Characteristic::Leaf => "leaf"@,
            Characteristic::Inflorescence => "inflorescence"@,
            Characteristic::Seed => "seed"@,
            Characteristic::Cloning => "cloning"@,
            Characteristic::Use => "use"@,
        }
    }

    /// Returns the characteristic's fixed wire-format token.
    pub fn token(&self) -> (r: &'static str)
        ensures
            r@ == self.spec_token(),
    {
        match self {
            Characteristic::Summary => "summary",
            Characteristic::Appearance => "appearance",
            Characteristic::Characteristic => "characteristic",
            Characteristic::Flower => "flower",
            Characteristic::Fruit => "fruit",
            Characteristic::Leaf => "leaf",
            Characteristic::Inflorescence => "inflorescence",
            Characteristic::Seed => "seed",
            Characteristic::Cloning => "cloning",
            Characteristic::Use => "use",
        }
    }
}

impl From<Characteristic> for PowoQuery {
    fn from(val: Characteristic) -> (r: PowoQuery) {
        PowoQuery::Characteristic(val)
    }
}

impl vstd::std_specs::convert::FromSpecImpl<Characteristic> for PowoQuery {
    open spec fn obeys_from_spec() -> bool {
        true
    }

    open spec fn from_spec(val: Characteristic) -> PowoQuery {
        PowoQuery::Characteristic(val)
    }
}

} // verus!
