use tracel_client::experiment::format_websocket_url;
use tracel_client::model::import_download_url;
use tracel_client::station::annotation::item_url;
use tracel_client::station::dataset::request::{QueryDatasetVersionsRequest, StreamDatasetVersionItemsRequest};
use tracel_client::station::dataset::{dataset_items_url, dataset_versions_url};
use tracel_client::station::experiment::request::{
    ListArtifactsQuery, ListExperimentsQuery, LogUrlsQuery, MetricAggregatedQuery, MetricSummaryQuery,
};
use tracel_client::station::experiment::{
    list_artifacts_url, list_url, logs_url, metric_summary_url, metrics_url, websocket_url,
};
use tracel_client::station::system::health_url;
use tracel_client::transport::{
    api_url, api_url_with_optional_query, api_url_with_query, base_url_with_trailing_slash, versioned_url,
    websocket_url_at,
};

const CONSOLE: &str = "https://console.tracel.ai/api/";
const LOCAL: &str = "http://localhost:9001/";

fn pairs(items: &[(&str, &str)]) -> Vec<(String, String)> {
    items.iter().map(|(n, v)| (n.to_string(), v.to_string())).collect()
}

#[test]
fn api_paths_resolve_under_the_version_segment() {
    assert_eq!(
        api_url(CONSOLE, "projects/tracel/mnist").as_deref(),
        Some("https://console.tracel.ai/api/v1/projects/tracel/mnist")
    );
    assert_eq!(api_url(LOCAL, "user").as_deref(), Some("http://localhost:9001/v1/user"));
}

#[test]
fn another_version_gets_its_own_segment() {
    assert_eq!(versioned_url(CONSOLE, "user", 2).as_deref(), Some("https://console.tracel.ai/api/v2/user"));
}

#[test]
fn an_absolute_path_replaces_the_whole_path() {
    assert_eq!(api_url(CONSOLE, "/health").as_deref(), Some("https://console.tracel.ai/health"));
}

#[test]
fn an_absolute_url_is_taken_as_it_is() {
    assert_eq!(
        api_url(CONSOLE, "https://console.tracel.ai/api/v1/user?x=1").as_deref(),
        Some("https://console.tracel.ai/api/v1/user?x=1")
    );
}

#[test]
fn a_base_that_is_no_url_addresses_nothing() {
    assert_eq!(api_url("not a url", "user"), None);
    assert_eq!(websocket_url_at("not a url", "experiments/1/ws"), None);
    assert_eq!(base_url_with_trailing_slash("not a url"), None);
}

#[test]
fn query_values_are_form_encoded() {
    let url = api_url_with_query(CONSOLE, "experiments/3/metrics", &pairs(&[("metric", "val loss"), ("a&b", "c=d")]));
    assert_eq!(
        url.as_deref(),
        Some("https://console.tracel.ai/api/v1/experiments/3/metrics?metric=val+loss&a%26b=c%3Dd")
    );
}

#[test]
fn an_empty_query_is_still_attached() {
    assert_eq!(
        api_url_with_query(LOCAL, "experiments", &Vec::new()).as_deref(),
        Some("http://localhost:9001/v1/experiments?")
    );
}

#[test]
fn an_optional_query_is_left_off_when_empty() {
    assert_eq!(
        api_url_with_optional_query(LOCAL, "experiments/1/logs", &Vec::new()).as_deref(),
        Some("http://localhost:9001/v1/experiments/1/logs")
    );
    assert_eq!(
        api_url_with_optional_query(LOCAL, "experiments/1/logs", &pairs(&[("start", "5")])).as_deref(),
        Some("http://localhost:9001/v1/experiments/1/logs?start=5")
    );
}

#[test]
fn a_base_path_gains_a_trailing_slash() {
    assert_eq!(
        base_url_with_trailing_slash("http://localhost:9001/api").as_deref(),
        Some("http://localhost:9001/api/")
    );
    assert_eq!(
        base_url_with_trailing_slash("http://localhost:9001/api?q=1").as_deref(),
        Some("http://localhost:9001/api/?q=1")
    );
}

#[test]
fn a_base_path_with_a_trailing_slash_is_kept() {
    assert_eq!(base_url_with_trailing_slash(CONSOLE).as_deref(), Some(CONSOLE));
    assert_eq!(base_url_with_trailing_slash(LOCAL).as_deref(), Some(LOCAL));
}

#[test]
fn websockets_follow_the_scheme_of_the_base() {
    assert_eq!(websocket_url(CONSOLE, 7).as_deref(), Some("wss://console.tracel.ai/api/v1/experiments/7/ws"));
    assert_eq!(websocket_url(LOCAL, -2).as_deref(), Some("ws://localhost:9001/v1/experiments/-2/ws"));
}

#[test]
fn project_websockets_are_addressed_under_the_project() {
    assert_eq!(
        format_websocket_url(CONSOLE, "tracel", "mnist", 12).as_deref(),
        Some("wss://console.tracel.ai/api/v1/projects/tracel/mnist/experiments/12/ws")
    );
}

#[test]
fn health_is_checked_outside_the_api_version() {
    assert_eq!(health_url(CONSOLE).as_deref(), Some("https://console.tracel.ai/api/health"));
}

#[test]
fn experiment_listings_carry_the_set_page_fields() {
    let query = ListExperimentsQuery { page: Some(2), per_page: None };
    assert_eq!(list_url(LOCAL, &query).as_deref(), Some("http://localhost:9001/v1/experiments?page=2"));
    let query = ListExperimentsQuery { page: Some(2), per_page: Some(50) };
    assert_eq!(
        list_url(LOCAL, &query).as_deref(),
        Some("http://localhost:9001/v1/experiments?page=2&per_page=50")
    );
    let query = ListExperimentsQuery { page: None, per_page: None };
    assert_eq!(list_url(LOCAL, &query).as_deref(), Some("http://localhost:9001/v1/experiments?"));
}

#[test]
fn metric_queries_name_the_metric() {
    let summary = MetricSummaryQuery { metric: "val loss".to_string() };
    assert_eq!(
        metric_summary_url(LOCAL, 4, &summary).as_deref(),
        Some("http://localhost:9001/v1/experiments/4/metrics/summary?metric=val+loss")
    );
    let aggregated = MetricAggregatedQuery { metric: "loss".to_string(), max_points: 500, downsampling_factor: -1 };
    assert_eq!(
        metrics_url(LOCAL, 4, &aggregated).as_deref(),
        Some("http://localhost:9001/v1/experiments/4/metrics?metric=loss&max_points=500&downsampling_factor=-1")
    );
}

#[test]
fn artifact_listings_filter_by_name_only_when_asked() {
    let all = ListArtifactsQuery { name: None };
    assert_eq!(
        list_artifacts_url(LOCAL, 9, &all).as_deref(),
        Some("http://localhost:9001/v1/experiments/9/artifacts")
    );
    let named = ListArtifactsQuery { name: Some("best model".to_string()) };
    assert_eq!(
        list_artifacts_url(LOCAL, 9, &named).as_deref(),
        Some("http://localhost:9001/v1/experiments/9/artifacts?name=best+model")
    );
}

#[test]
fn logs_start_where_asked() {
    assert_eq!(
        logs_url(LOCAL, 9, &LogUrlsQuery { start: None }).as_deref(),
        Some("http://localhost:9001/v1/experiments/9/logs")
    );
    assert_eq!(
        logs_url(LOCAL, 9, &LogUrlsQuery { start: Some(120) }).as_deref(),
        Some("http://localhost:9001/v1/experiments/9/logs?start=120")
    );
}

#[test]
fn dataset_urls_carry_their_paging() {
    let versions = QueryDatasetVersionsRequest { page: None, per_page: Some(10) };
    assert_eq!(
        dataset_versions_url(LOCAL, "cifar", &versions).as_deref(),
        Some("http://localhost:9001/v1/datasets/cifar/versions?per_page=10")
    );
    let items = StreamDatasetVersionItemsRequest { cursor: Some(40), limit: Some(20) };
    assert_eq!(
        dataset_items_url(LOCAL, "cifar", 3, &items).as_deref(),
        Some("http://localhost:9001/v1/datasets/cifar/versions/3/items?cursor=40&limit=20")
    );
}

#[test]
fn annotation_items_say_whether_data_comes_along() {
    let id: u128 = 0x0123_4567_89ab_cdef_0123_4567_89ab_cdef;
    assert_eq!(
        item_url(LOCAL, "boxes", id, true).as_deref(),
        Some("http://localhost:9001/v1/annotation-sets/boxes/items/01234567-89ab-cdef-0123-456789abcdef?include_data=true")
    );
    assert_eq!(
        item_url(LOCAL, "boxes", id, false).as_deref(),
        Some("http://localhost:9001/v1/annotation-sets/boxes/items/01234567-89ab-cdef-0123-456789abcdef?include_data=false")
    );
}

#[test]
fn imported_model_downloads_name_the_source_project() {
    assert_eq!(
        import_download_url(CONSOLE, "me", "proj", "net", 2, "them", "their proj").as_deref(),
        Some("https://console.tracel.ai/api/v1/projects/me/proj/models/net/versions/2/download?owner_name=them&project_name=their+proj")
    );
}
