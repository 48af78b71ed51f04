//! The builder discipline shared by both API bindings.

use kew::Api;
use kew::ipni::Ipni;
use kew::ipni::terms as ipni_terms;
use kew::powo::Powo;
use kew::powo::terms as powo_terms;
use kew::powo::filters::Filters as PowoFilters;
use kew::ipni::filters::Filters as IpniFilters;

#[test]
fn base_urls() {
    assert_eq!(Ipni::url(), "https://beta.ipni.org/api/1");
    assert_eq!(Powo::url(), "https://powo.science.kew.org/api/2");
}

#[test]
fn advanced_name_search_builds_the_expected_query() {
    let params = Ipni::new()
        .query(ipni_terms::IpniQuery::from(ipni_terms::Name::Genus), "Poa".to_string())
        .query(ipni_terms::IpniQuery::from(ipni_terms::Name::Species), "annua".to_string())
        .query(ipni_terms::IpniQuery::from(ipni_terms::Name::Author), "L.".to_string())
        .search_params();
    let q = params.iter().find(|p| p.0 == "q").unwrap();
    assert_eq!(q.1, "genus:Poa,species:annua,name author:L.");
}

#[test]
fn powo_builder_mirrors_the_ipni_builder() {
    let params = Powo::new()
        .query(powo_terms::PowoQuery::from(powo_terms::Characteristic::Flower), "yellow".to_string())
        .query(powo_terms::PowoQuery::from(powo_terms::Characteristic::Leaf), "alternate".to_string())
        .filter(PowoFilters::Accepted)
        .filter(PowoFilters::HasImages)
        .search_params();
    assert_eq!(params[0], ("perPage".to_string(), "500".to_string()));
    assert_eq!(params[1], ("cursor".to_string(), "*".to_string()));
    assert_eq!(params[2], ("q".to_string(), "flower:yellow,leaf:alternate".to_string()));
    assert_eq!(params[3], ("f".to_string(), "accepted_names,has_images".to_string()));
}

#[test]
fn a_cloned_builder_branches_without_aliasing() {
    let base = Ipni::new().query(
        ipni_terms::IpniQuery::from(ipni_terms::Name::Family),
        "Poaceae".to_string(),
    );

    let unfiltered = base.clone().search_params();
    let filtered = base.clone().filter(IpniFilters::Infrafamilial).search_params();

    assert!(unfiltered.iter().all(|p| p.0 != "f"));
    let f = filtered.iter().find(|p| p.0 == "f").unwrap();
    assert_eq!(f.1, "f_infrafamilial");

    // the shared prefix is untouched by either branch
    let again = base.search_params();
    assert_eq!(again, unfiltered);
}

#[test]
fn lookup_paths() {
    assert_eq!(Ipni::name_path("320035-2"), "n/320035-2");
    assert_eq!(Ipni::publication_path("1071-2"), "p/1071-2");
    assert_eq!(Ipni::author_path("12653-1"), "a/12653-1");
    assert_eq!(
        Powo::taxon_path("urn:lsid:ipni.org:names:320035-2"),
        "taxon/urn:lsid:ipni.org:names:320035-2"
    );
}

#[test]
fn powo_lookup_params_join_the_requested_fields() {
    let params = Powo::lookup_params(&Some(vec![
        "distribution".to_string(),
        "descriptions".to_string(),
    ]));
    assert_eq!(
        params,
        vec![("fields".to_string(), "distribution,descriptions".to_string())]
    );
    assert!(Powo::lookup_params(&None).is_empty());
}

#[test]
fn powo_free_text_search_params() {
    let params = Powo::search_params_for("Poa Annua".to_string());
    assert_eq!(
        params,
        vec![
            ("perPage".to_string(), "500".to_string()),
            ("cursor".to_string(), "*".to_string()),
            ("q".to_string(), "Poa Annua".to_string()),
        ]
    );
}
