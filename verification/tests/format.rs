//! Query-expression serialization and the fixed token tables.

use kew::engine::{SearchQuery, ToKey, ToToken};
use kew::ipni;
use kew::ipni::filters::Filters as IpniFilters;
use kew::ipni::terms::{Author, Name, Publication};
use kew::powo;
use kew::powo::filters::Filters as PowoFilters;
use kew::powo::terms::{Characteristic, Geography, Name as PowoName};

#[test]
fn free_text_formats_verbatim() {
    let q = SearchQuery::<ipni::IpniQuery>::FreeText("Poa Annua, anywhere:really".to_string());
    assert_eq!(q.format(), "Poa Annua, anywhere:really");
}

#[test]
fn structured_query_joins_clauses_in_insertion_order() {
    let q = SearchQuery::Structured(vec![
        (ipni::IpniQuery::from(Name::Genus), "Poa".to_string()),
        (ipni::IpniQuery::from(Name::Species), "annua".to_string()),
    ]);
    assert_eq!(q.format(), "genus:Poa,species:annua");
}

#[test]
fn structured_query_with_one_clause_has_no_comma() {
    let q = SearchQuery::Structured(vec![(
        ipni::IpniQuery::from(Name::Author),
        "L.".to_string(),
    )]);
    assert_eq!(q.format(), "name author:L.");
}

#[test]
fn empty_structured_query_formats_to_the_empty_string() {
    let q = SearchQuery::<ipni::IpniQuery>::Structured(Vec::new());
    assert_eq!(q.format(), "");
}

#[test]
fn values_pass_through_unvalidated() {
    let q = SearchQuery::Structured(vec![(
        ipni::IpniQuery::from(Name::FullName),
        "Poa: the annua".to_string(),
    )]);
    assert_eq!(q.format(), "full name:Poa: the annua");
}

#[test]
fn ipni_key_tokens() {
    assert_eq!(Name::Genus.token(), "genus");
    assert_eq!(Name::Collectors.token(), "collector team");
    assert_eq!(Name::InPowo.token(), "in powo");
    assert_eq!(Author::StandardForm.token(), "author std");
    assert_eq!(Author::Surname.token(), "author surname");
    assert_eq!(Publication::Tl2Number.token(), "tl2 number");
    assert_eq!(Publication::SupercededBy.token(), "superceded by");
    assert_eq!(ipni::IpniQuery::from(Name::ScientificName).to_key(), "scientific name");
    assert_eq!(ipni::IpniQuery::from(Author::Forename).to_key(), "author forename");
    assert_eq!(ipni::IpniQuery::from(Publication::Isbn).to_key(), "isbn");
}

#[test]
fn powo_key_tokens() {
    assert_eq!(PowoName::FullName.token(), "name");
    assert_eq!(PowoName::CommonName.token(), "common name");
    assert_eq!(Characteristic::Flower.token(), "flower");
    assert_eq!(Characteristic::Use.token(), "use");
    assert_eq!(Geography::Distribution.token(), "location");
    assert_eq!(powo::PowoQuery::from(PowoName::Kingdom).to_key(), "kingdom");
    assert_eq!(powo::PowoQuery::from(Characteristic::Leaf).to_key(), "leaf");
    assert_eq!(powo::PowoQuery::from(Geography::Distribution).to_key(), "location");
}

#[test]
fn ipni_filter_tokens() {
    assert_eq!(IpniFilters::Familial.token(), "f_familial");
    assert_eq!(IpniFilters::Infrafamilial.token(), "f_infrafamilial");
    assert_eq!(IpniFilters::Generic.token(), "f_generic");
    assert_eq!(IpniFilters::Infrageneric.token(), "f_infrageneric");
    assert_eq!(IpniFilters::Specific.token(), "f_specific");
    assert_eq!(IpniFilters::Infraspecific.token(), "f_infraspecific");
}

#[test]
fn powo_filter_tokens() {
    assert_eq!(PowoFilters::Accepted.token(), "accepted_names");
    assert_eq!(PowoFilters::HasImages.token(), "has_images");
    assert_eq!(PowoFilters::Families.token(), "families_f");
    assert_eq!(PowoFilters::Genera.token(), "genus_f");
    assert_eq!(PowoFilters::Species.token(), "species_f");
    assert_eq!(PowoFilters::Infraspecies.token(), "infraspecific_f");
}
