use modrinth::query_string::form_urlencode;
use modrinth::params::{ProjectSearchParams, SearchFacet, SearchFilters, SearchIndex};
use modrinth::search::search_url;

fn sample_facets() -> SearchFilters<SearchFacet> {
    SearchFilters(vec![
        vec![SearchFacet::category("fabric")],
        vec![SearchFacet::version("1.20.1"), SearchFacet::version("1.20.2")],
    ])
}

#[test]
fn facet_rendering() {
    assert_eq!(SearchFacet::category("fabric").render(), "categories:'fabric'");
    assert_eq!(SearchFacet::version("1.20.1").render(), "versions:'1.20.1'");
    assert_eq!(SearchFacet::license("mit").render(), "license:'mit'");
    assert_eq!(SearchFacet::project_type("mod").render(), "project_type:'mod'");
    assert_eq!(SearchFacet::custom("downloads", "100").render(), "downloads:'100'");
}

#[test]
fn facet_expression_json() {
    assert_eq!(
        sample_facets().to_json(),
        r#"[["categories:'fabric'"],["versions:'1.20.1'","versions:'1.20.2'"]]"#
    );
}

#[test]
fn filter_expression_json() {
    let filters = SearchFilters(vec![vec!["a".to_string(), "b\"c".to_string()], vec![]]);
    assert_eq!(filters.to_json(), r#"[["a","b\"c"],[]]"#);
}

#[test]
fn index_tokens() {
    assert_eq!(SearchIndex::Relevance.as_str(), "relevance");
    assert_eq!(SearchIndex::Downloads.as_str(), "downloads");
    assert_eq!(SearchIndex::Follows.as_str(), "follows");
    assert_eq!(SearchIndex::Newest.as_str(), "newest");
    assert_eq!(SearchIndex::Updated.as_str(), "updated");
}

#[test]
fn empty_params_give_empty_query() {
    assert_eq!(ProjectSearchParams::default().to_query_string(), "");
}

#[test]
fn facets_are_percent_encoded_json() {
    let params = ProjectSearchParams {
        facets: Some(SearchFilters(vec![vec![SearchFacet::category("fabric")]])),
        ..Default::default()
    };
    assert_eq!(params.to_query_string(), "facets=%5B%5B%22categories%3A%27fabric%27%22%5D%5D");
}

#[test]
fn all_fields_in_order() {
    let params = ProjectSearchParams {
        query: Some("gravestone mod".to_string()),
        facets: Some(SearchFilters(vec![vec![SearchFacet::category("fabric")]])),
        index: Some(SearchIndex::Downloads),
        offset: Some(20),
        limit: Some(10),
        filters: Some(SearchFilters(vec![vec!["x=1".to_string()]])),
    };
    assert_eq!(
        params.to_query_string(),
        "query=gravestone+mod&facets=%5B%5B%22categories%3A%27fabric%27%22%5D%5D&index=downloads\
         &offset=20&limit=10&filters=%5B%5B%22x%3D1%22%5D%5D"
    );
}

#[test]
fn empty_expression_is_still_sent() {
    let params = ProjectSearchParams { facets: Some(SearchFilters(vec![])), ..Default::default() };
    assert_eq!(params.to_query_string(), "facets=%5B%5D");
}

#[test]
fn query_text_is_utf8_percent_encoded() {
    let params = ProjectSearchParams { query: Some("é*-._~".to_string()), ..Default::default() };
    assert_eq!(params.to_query_string(), "query=%C3%A9*-._%7E");
}

#[test]
fn limit_override_and_zero() {
    let params = ProjectSearchParams { offset: Some(0), limit: Some(100), ..Default::default() };
    assert_eq!(params.query_string_with_limit(Some(1)), "offset=0&limit=1");
    assert_eq!(params.query_string_with_limit(None), "offset=0");
}

#[test]
fn encoding_is_deterministic() {
    let params = ProjectSearchParams {
        query: Some("magic".to_string()),
        facets: Some(sample_facets()),
        index: Some(SearchIndex::Newest),
        ..Default::default()
    };
    let again = params.clone();
    assert_eq!(params.to_query_string(), params.to_query_string());
    assert_eq!(params.to_query_string(), again.to_query_string());
}

#[test]
fn search_url_joins_endpoint_and_query() {
    let params = ProjectSearchParams { limit: Some(5), ..Default::default() };
    assert_eq!(search_url(&params), "https://api.modrinth.com/v2/search?limit=5");
}

#[test]
fn form_urlencoding_of_values() {
    assert_eq!(form_urlencode("[[\"categories:'fabric'\"]]"), "%5B%5B%22categories%3A%27fabric%27%22%5D%5D");
    assert_eq!(form_urlencode("a b+c"), "a+b%2Bc");
    assert_eq!(form_urlencode(""), "");
    assert_eq!(form_urlencode("AZaz09*-._"), "AZaz09*-._");
}
