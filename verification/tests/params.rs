//! The outbound parameter list: page size, cursor, query and filters.

use kew::Api;
use kew::engine::{SearchQuery, build_params};
use kew::ipni::terms::{Author, IpniQuery, Name, Publication};
use kew::ipni::filters::Filters;
use kew::ipni::Ipni;

#[test]
fn per_page_is_always_500() {
    let params = Ipni::new().search_params();
    assert_eq!(params[0].0, "perPage");
    assert_eq!(params[0].1, "500");

    let with_everything = Ipni::new()
        .query(IpniQuery::from(Name::Genus), "Poa".to_string())
        .filter(Filters::Generic)
        .cursor("abc".to_string())
        .search_params();
    assert_eq!(with_everything[0].0, "perPage");
    assert_eq!(with_everything[0].1, "500");
}

#[test]
fn cursor_is_always_present_and_defaults_to_star() {
    let params = Ipni::new().search_params();
    assert_eq!(params[1].0, "cursor");
    assert_eq!(params[1].1, "*");

    let paged = Ipni::new().cursor("AoIppZ5i".to_string()).search_params();
    assert_eq!(paged[1].0, "cursor");
    assert_eq!(paged[1].1, "AoIppZ5i");
}

#[test]
fn cursor_call_replaces_the_cursor() {
    let params = Ipni::new()
        .cursor("first".to_string())
        .cursor("second".to_string())
        .search_params();
    assert_eq!(params[1].1, "second");
}

#[test]
fn empty_builder_sends_only_page_size_and_cursor() {
    let params = Ipni::new().search_params();
    assert_eq!(params.len(), 2);
}

#[test]
fn filters_join_their_tokens_in_insertion_order() {
    let params = Ipni::new()
        .query(IpniQuery::from(Name::Family), "Poaceae".to_string())
        .filter(Filters::Familial)
        .filter(Filters::Generic)
        .filter(Filters::Infraspecific)
        .search_params();
    let f = params.iter().find(|p| p.0 == "f").expect("filters present");
    assert_eq!(f.1, "f_familial,f_generic,f_infraspecific");
    assert_eq!(params.last().unwrap().0, "f");
}

#[test]
fn no_filter_call_means_no_f_parameter() {
    let params = Ipni::new()
        .query(IpniQuery::from(Name::Family), "Poaceae".to_string())
        .search_params();
    assert!(params.iter().all(|p| p.0 != "f"));
}

#[test]
fn build_params_orders_q_before_f() {
    let query = Some(SearchQuery::<IpniQuery>::FreeText("Poa Annua".to_string()));
    let filters = Some(vec!["f_generic".to_string()]);
    let params = build_params(&query, &filters, "*");
    assert_eq!(params.len(), 4);
    assert_eq!(params[0], ("perPage".to_string(), "500".to_string()));
    assert_eq!(params[1], ("cursor".to_string(), "*".to_string()));
    assert_eq!(params[2], ("q".to_string(), "Poa Annua".to_string()));
    assert_eq!(params[3], ("f".to_string(), "f_generic".to_string()));
}

#[test]
fn free_text_search_params() {
    let params = Ipni::search_params_for("Poa Annua".to_string());
    assert_eq!(
        params,
        vec![
            ("perPage".to_string(), "500".to_string()),
            ("cursor".to_string(), "*".to_string()),
            ("q".to_string(), "Poa Annua".to_string()),
        ]
    );
}

#[test]
fn advanced_search_mixes_sub_vocabularies() {
    let params = Ipni::new()
        .query(IpniQuery::from(Name::Genus), "Poa".to_string())
        .query(IpniQuery::from(Author::StandardForm), "L.".to_string())
        .query(IpniQuery::from(Publication::LcNumber), "QK91.S6".to_string())
        .search_params();
    let q = params.iter().find(|p| p.0 == "q").expect("query present");
    assert_eq!(q.1, "genus:Poa,author std:L.,lc number:QK91.S6");
}

#[test]
fn suggest_params_hold_the_query_alone() {
    let params = kew::ipni::suggest::suggest_params("Poa ann".to_string());
    assert_eq!(params, vec![("query".to_string(), "Poa ann".to_string())]);
}
