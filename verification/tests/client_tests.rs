use algolia_recommend_rs::client::RECOMMEND_PATH;
use algolia_recommend_rs::{
    get_default_hosts, Error, Model, RecommendClient, RecommendRequest, Reply, Step,
    TrendingFacetsRequest,
};

fn strings(items: &[&str]) -> Vec<String> {
    items.iter().map(|s| s.to_string()).collect()
}

fn refused(error: Error) -> String {
    match error {
        Error::Api { status, message, body } => {
            assert_eq!(status, 400);
            assert_eq!(body, "");
            message.expect("a refusal says why")
        }
        other => panic!("not an API error: {other:?}"),
    }
}

#[test]
fn default_hosts_are_derived_from_the_application() {
    assert_eq!(
        get_default_hosts("APPID"),
        strings(&[
            "https://APPID-dsn.algolia.net",
            "https://APPID.algolia.net",
            "https://APPID-1.algolianet.com",
            "https://APPID-2.algolianet.com",
            "https://APPID-3.algolianet.com",
        ])
    );
    assert_eq!(get_default_hosts("")[0], "https://-dsn.algolia.net");
}

#[test]
fn recommend_path_is_the_batch_endpoint() {
    assert_eq!(RECOMMEND_PATH, "/1/indexes/*/recommendations");
}

#[test]
fn new_client_uses_the_default_hosts() {
    let client = RecommendClient::new("APPID", "KEY");
    assert_eq!(client.hosts(), &get_default_hosts("APPID"));
    assert_eq!(client.base_url(), "https://APPID-dsn.algolia.net");
}

#[test]
fn custom_host_gives_a_pool_of_one_https_host() {
    let client = RecommendClient::with_custom_host("APPID", "KEY", "recommend.example.com");
    assert_eq!(client.hosts(), &strings(&["https://recommend.example.com"]));
    assert_eq!(client.base_url(), "https://recommend.example.com");
}

#[test]
fn base_url_gives_a_pool_of_that_one_host() {
    let client = RecommendClient::with_base_url("APPID", "KEY", "http://127.0.0.1:8080");
    assert_eq!(client.hosts(), &strings(&["http://127.0.0.1:8080"]));
    assert_eq!(client.base_url(), "http://127.0.0.1:8080");
}

#[test]
fn explicit_hosts_are_used_verbatim() {
    let hosts = strings(&["http://b", "http://a", "http://b"]);
    let client = RecommendClient::with_hosts("APPID", "KEY", hosts.clone());
    assert_eq!(client.hosts(), &hosts);
    assert_eq!(client.base_url(), "http://b");
}

#[test]
fn empty_pool_falls_back_to_the_bare_scheme() {
    let client = RecommendClient::with_hosts("APPID", "KEY", Vec::new());
    assert!(client.hosts().is_empty());
    assert_eq!(client.base_url(), "https://");
    let call = client.dispatch();
    assert_eq!(call.host_index(), 0);
    assert_eq!(client.attempt_url(&call), "https:///1/indexes/*/recommendations");
    let reply = Reply::Answer { status: 503, body: String::new() };
    assert!(matches!(call.record(reply), Step::Done(Err(_))));
}

#[test]
fn headers_name_json_and_the_credentials() {
    let client = RecommendClient::with_base_url("APPID", "KEY", "http://h");
    let expected: Vec<(String, String)> = [
        ("accept", "application/json"),
        ("content-type", "application/json"),
        ("x-algolia-application-id", "APPID"),
        ("x-algolia-api-key", "KEY"),
    ]
    .iter()
    .map(|(n, v)| (n.to_string(), v.to_string()))
    .collect();
    assert_eq!(client.headers(), expected);
}

#[test]
fn consecutive_calls_start_round_robin() {
    let client = RecommendClient::with_hosts("A", "K", strings(&["http://a", "http://b", "http://c"]));
    let mut starts = Vec::new();
    for _ in 0..7 {
        let call = client.dispatch();
        starts.push((call.host_index(), client.attempt_url(&call)));
    }
    let indices: Vec<usize> = starts.iter().map(|s| s.0).collect();
    assert_eq!(indices, vec![0, 1, 2, 0, 1, 2, 0]);
    assert_eq!(starts[0].1, "http://a/1/indexes/*/recommendations");
    assert_eq!(starts[1].1, "http://b/1/indexes/*/recommendations");
    assert_eq!(starts[2].1, "http://c/1/indexes/*/recommendations");
    assert_eq!(starts[3].1, "http://a/1/indexes/*/recommendations");
}

#[test]
fn clones_share_the_cursor_and_clients_do_not() {
    let client = RecommendClient::with_hosts("A", "K", strings(&["http://a", "http://b"]));
    let clone = client.clone();
    assert_eq!(client.dispatch().host_index(), 0);
    assert_eq!(clone.dispatch().host_index(), 1);
    assert_eq!(client.dispatch().host_index(), 0);

    let other = RecommendClient::with_hosts("A", "K", strings(&["http://a", "http://b"]));
    assert_eq!(other.dispatch().host_index(), 0);
}

#[test]
fn single_host_client_always_starts_at_its_host() {
    let client = RecommendClient::with_custom_host("A", "K", "only.example.com");
    for _ in 0..3 {
        let call = client.dispatch();
        assert_eq!(call.host_index(), 0);
        assert_eq!(
            client.attempt_url(&call),
            "https://only.example.com/1/indexes/*/recommendations"
        );
        let reply = Reply::Answer { status: 500, body: String::from("down") };
        assert!(matches!(call.record(reply), Step::Done(Err(e)) if e.status_code() == 500));
    }
}

#[test]
fn attempts_of_one_call_walk_the_pool_from_its_start() {
    let client = RecommendClient::with_hosts("A", "K", strings(&["http://a", "http://b", "http://c"]));
    client.dispatch();
    let mut call = client.dispatch();
    let mut urls = vec![client.attempt_url(&call)];
    loop {
        match call.record(Reply::Answer { status: 500, body: String::new() }) {
            Step::Attempt(next) => {
                call = next;
                urls.push(client.attempt_url(&call));
            }
            Step::Done(_) => break,
        }
    }
    assert_eq!(
        urls,
        strings(&[
            "http://b/1/indexes/*/recommendations",
            "http://c/1/indexes/*/recommendations",
            "http://a/1/indexes/*/recommendations",
        ])
    );
}

#[test]
fn a_call_of_another_pool_is_posted_to_the_base_url() {
    let wide = RecommendClient::with_hosts("A", "K", strings(&["http://a", "http://b", "http://c"]));
    let narrow = RecommendClient::with_base_url("A", "K", "http://only");
    wide.dispatch();
    wide.dispatch();
    let call = wide.dispatch();
    assert_eq!(call.host_index(), 2);
    assert_eq!(narrow.attempt_url(&call), "http://only/1/indexes/*/recommendations");
}

#[test]
fn recommendations_batch_has_one_plain_request_for_each_model() {
    let client = RecommendClient::with_base_url("A", "K", "http://h").with_default_object_id("obj-1");
    let batch = client
        .get_recommendations(
            "products",
            vec![Model::LookingSimilar, Model::TrendingItems, Model::RelatedProducts],
        )
        .unwrap();
    assert_eq!(batch.len(), 3);
    let models: Vec<Model> = batch.iter().map(|r| r.model).collect();
    assert_eq!(models, vec![Model::LookingSimilar, Model::TrendingItems, Model::RelatedProducts]);
    let objects: Vec<Option<&str>> = batch.iter().map(|r| r.object_id.as_deref()).collect();
    assert_eq!(objects, vec![Some("obj-1"), None, Some("obj-1")]);
    for request in &batch {
        assert_eq!(request.index_name, "products");
        assert_eq!(request.threshold, 0);
        assert_eq!(request.max_recommendations, None);
        assert_eq!(request.facet_name, None);
        assert_eq!(request.query_parameters, None);
    }
}

#[test]
fn recommendations_batch_of_no_models_is_empty() {
    let client = RecommendClient::with_base_url("A", "K", "http://h");
    assert!(client.get_recommendations("products", Vec::new()).unwrap().is_empty());
}

#[test]
fn trending_items_need_no_default_object() {
    let client = RecommendClient::with_base_url("A", "K", "http://h");
    let batch = client.get_recommendations("products", vec![Model::TrendingItems]).unwrap();
    assert_eq!(batch.len(), 1);
    assert_eq!(batch[0].object_id, None);
}

#[test]
fn trending_facets_are_refused_in_a_recommendations_batch() {
    let client = RecommendClient::with_base_url("A", "K", "http://h").with_default_object_id("o");
    let error = client
        .get_recommendations("products", vec![Model::TrendingItems, Model::TrendingFacets])
        .unwrap_err();
    assert_eq!(refused(error), "trending-facets must be requested via get_trending_facets");
}

#[test]
fn models_that_need_an_object_are_refused_without_a_default() {
    let client = RecommendClient::with_base_url("A", "K", "http://h");
    for model in [Model::BoughtTogether, Model::RelatedProducts, Model::LookingSimilar] {
        let error = client.get_recommendations("products", vec![model]).unwrap_err();
        assert_eq!(
            refused(error),
            "default objectID not set; call with_default_object_id or set_default_object_id"
        );
    }
}

#[test]
fn the_first_refused_model_decides_the_error() {
    let client = RecommendClient::with_base_url("A", "K", "http://h");
    let error = client
        .get_recommendations("products", vec![Model::BoughtTogether, Model::TrendingFacets])
        .unwrap_err();
    assert_eq!(
        refused(error),
        "default objectID not set; call with_default_object_id or set_default_object_id"
    );
    let error = client
        .get_recommendations("products", vec![Model::TrendingFacets, Model::BoughtTogether])
        .unwrap_err();
    assert_eq!(refused(error), "trending-facets must be requested via get_trending_facets");
}

#[test]
fn set_default_object_id_replaces_the_default() {
    let mut client = RecommendClient::with_base_url("A", "K", "http://h").with_default_object_id("one");
    client.set_default_object_id("two");
    let batch = client.get_recommendations("products", vec![Model::BoughtTogether]).unwrap();
    assert_eq!(batch[0].object_id.as_deref(), Some("two"));
    assert_eq!(client.hosts(), &strings(&["http://h"]));
    assert_eq!(client.headers()[2].1, "A");
}

#[test]
fn trending_facets_batch_is_passed_as_it_is() {
    let client = RecommendClient::with_base_url("A", "K", "http://h");
    let mut second = TrendingFacetsRequest::new("products", "brand");
    second.threshold = 7;
    second.max_recommendations = Some(3);
    let batch = client
        .get_trending_facets(vec![TrendingFacetsRequest::new("products", "category"), second])
        .unwrap();
    assert_eq!(batch.len(), 2);
    assert_eq!(batch[0].facet_name, "category");
    assert_eq!(batch[1].facet_name, "brand");
    assert_eq!(batch[1].threshold, 7);
    assert_eq!(batch[1].max_recommendations, Some(3));
    assert!(client.get_trending_facets(Vec::new()).unwrap().is_empty());
}

#[test]
fn trending_facets_batch_refuses_other_models() {
    let client = RecommendClient::with_base_url("A", "K", "http://h");
    let mut wrong = TrendingFacetsRequest::new("products", "category");
    wrong.model = Model::TrendingItems;
    let error = client
        .get_trending_facets(vec![TrendingFacetsRequest::new("products", "brand"), wrong])
        .unwrap_err();
    assert_eq!(refused(error), "all requests must use model=trending-facets");
}

#[test]
fn request_builders_set_model_and_object() {
    let request = RecommendRequest::bought_together("products", "obj-1");
    assert_eq!(request.model, Model::BoughtTogether);
    assert_eq!(request.index_name, "products");
    assert_eq!(request.object_id.as_deref(), Some("obj-1"));
    assert_eq!(request.threshold, 0);
    assert_eq!(request.max_recommendations, None);
    assert_eq!(request.facet_name, None);
    assert_eq!(request.query_parameters, None);

    let request = RecommendRequest::related_products("products", "obj-2");
    assert_eq!(request.model, Model::RelatedProducts);
    assert_eq!(request.object_id.as_deref(), Some("obj-2"));

    let request = RecommendRequest::looking_similar("products", "obj-3");
    assert_eq!(request.model, Model::LookingSimilar);
    assert_eq!(request.object_id.as_deref(), Some("obj-3"));

    let request = RecommendRequest::trending_items("products");
    assert_eq!(request.model, Model::TrendingItems);
    assert_eq!(request.object_id, None);
    assert_eq!(request.index_name, "products");
}

#[test]
fn trending_facets_request_names_index_and_facet() {
    let request = TrendingFacetsRequest::new("products", "category");
    assert_eq!(request.model, Model::TrendingFacets);
    assert_eq!(request.index_name, "products");
    assert_eq!(request.facet_name, "category");
    assert_eq!(request.threshold, 0);
    assert_eq!(request.max_recommendations, None);
    assert_eq!(request.query_parameters, None);
}
