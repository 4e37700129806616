use tracel_client::console::dataset::{
    dataset_path, datasets_path, datasets_query_path, dataset_uploads_path, dataset_versions_path,
    stream_items_path, upload_cancel_path, upload_complete_path, upload_items_path,
};
use tracel_client::experiment::{cancel_path, experiments_path, websocket_path};
use tracel_client::fleet::bearer_auth;
use tracel_client::inference::{inference_group_path, inference_groups_path, telemetry_path};
use tracel_client::job::{jobs_queue_path, queue_job_request};
use tracel_client::model::{
    import_download_query, model_download_path, model_path, model_version_complete_path,
    model_version_path, model_version_ref_path, model_versions_path, models_path,
};
use tracel_client::project::{
    code_complete_path, code_upload_path, create_project_request, organization_projects_path,
    project_path, user_projects_path,
};
use tracel_client::station::annotation::{
    annotation_set_path, include_data_query, item_path, item_reset_path, items_path, items_query_path,
    promote_path,
};
use tracel_client::station::dataset::request::{QueryDatasetVersionsRequest, StreamDatasetVersionItemsRequest};
use tracel_client::station::dataset::{dataset_download_path, dataset_items_path};
use tracel_client::station::experiment as station_experiment;
use tracel_client::station::experiment::request::{
    ListArtifactsQuery, ListExperimentsQuery, LogUrlsQuery, MetricAggregatedQuery, MetricSummaryQuery,
};
use tracel_client::station::model as station_model;
use tracel_client::transport::Auth;

fn pairs(list: &[(&str, &str)]) -> Vec<(String, String)> {
    list.iter().map(|(a, b)| (a.to_string(), b.to_string())).collect()
}

#[test]
fn console_dataset_paths() {
    assert_eq!(datasets_path("ada", "vision"), "projects/ada/vision/datasets");
    assert_eq!(datasets_query_path("ada", "vision"), "projects/ada/vision/datasets/query");
    assert_eq!(dataset_path("ada", "vision", "cats"), "projects/ada/vision/datasets/cats");
    assert_eq!(dataset_versions_path("ada", "vision", "cats"), "projects/ada/vision/datasets/cats/versions");
    assert_eq!(dataset_uploads_path("ada", "vision", "cats"), "projects/ada/vision/datasets/cats/uploads");
    assert_eq!(upload_items_path("a", "p", "d", "u1"), "projects/a/p/datasets/d/uploads/u1/items");
    assert_eq!(upload_complete_path("a", "p", "d", "u1"), "projects/a/p/datasets/d/uploads/u1/complete");
    assert_eq!(upload_cancel_path("a", "p", "d", "u1"), "projects/a/p/datasets/d/uploads/u1/cancel");
}

#[test]
fn item_pages_carry_only_the_set_parameters() {
    assert_eq!(stream_items_path("a", "p", "d", 3, None, None), "projects/a/p/datasets/d/versions/3/items");
    assert_eq!(stream_items_path("a", "p", "d", 3, Some(40), None), "projects/a/p/datasets/d/versions/3/items?index=40");
    assert_eq!(stream_items_path("a", "p", "d", 3, None, Some(25)), "projects/a/p/datasets/d/versions/3/items?limit=25");
    assert_eq!(
        stream_items_path("a", "p", "d", 3, Some(0), Some(25)),
        "projects/a/p/datasets/d/versions/3/items?index=0&limit=25"
    );
}

#[test]
fn model_paths() {
    assert_eq!(models_path("ada", "vision"), "projects/ada/vision/models");
    assert_eq!(model_path("ada", "vision", "resnet"), "projects/ada/vision/models/resnet");
    assert_eq!(model_versions_path("a", "p", "m"), "projects/a/p/models/m/versions");
    assert_eq!(model_version_path("a", "p", "m", 7), "projects/a/p/models/m/versions/7");
    assert_eq!(model_version_ref_path("a", "p", "m", "latest"), "projects/a/p/models/m/refs/latest");
    assert_eq!(model_download_path("a", "p", "m", 12), "projects/a/p/models/m/versions/12/download");
    assert_eq!(model_version_complete_path("a", "p", "m", 0), "projects/a/p/models/m/versions/0/complete");
    assert_eq!(
        import_download_query("src", "proj"),
        pairs(&[("owner_name", "src"), ("project_name", "proj")])
    );
}

#[test]
fn project_paths_and_body() {
    assert_eq!(project_path("ada", "vision"), "projects/ada/vision");
    assert_eq!(user_projects_path("ada"), "users/ada/projects");
    assert_eq!(organization_projects_path("tracel"), "organizations/tracel/projects");
    assert_eq!(code_upload_path("ada", "vision"), "projects/ada/vision/code/upload");
    assert_eq!(code_complete_path("ada", "vision", "c9"), "projects/ada/vision/code/c9/complete");
    let req = create_project_request("vision", Some("cats and dogs"));
    assert_eq!(req.name, "vision");
    assert_eq!(req.description.as_deref(), Some("cats and dogs"));
    assert_eq!(create_project_request("x", None).description, None);
}

#[test]
fn experiment_and_job_paths() {
    assert_eq!(experiments_path("ada", "vision"), "projects/ada/vision/experiments");
    assert_eq!(websocket_path("ada", "vision", 4), "projects/ada/vision/experiments/4/ws");
    assert_eq!(cancel_path("ada", "vision", -2), "projects/ada/vision/experiments/-2/cancel");
    assert_eq!(jobs_queue_path("ada", "vision"), "projects/ada/vision/jobs/queue");
    let job = queue_job_request("gpus", "sha256:ab", "train");
    assert_eq!(job.compute_provider_group_name, "gpus");
    assert_eq!(job.digest, "sha256:ab");
    assert_eq!(job.command, "train");
}

#[test]
fn inference_and_fleet() {
    assert_eq!(inference_groups_path("a", "p"), "projects/a/p/inference-groups");
    assert_eq!(inference_group_path("a", "p", "g"), "projects/a/p/inference-groups/g");
    assert_eq!(telemetry_path("a", "p", "g"), "projects/a/p/inference-groups/g/telemetry");
    assert_eq!(bearer_auth("jwt"), Auth::Bearer("jwt".to_string()));
}

#[test]
fn annotation_paths() {
    let id: u128 = 0xa1a2a3a4b1b2c1c2d1d2d3d4d5d6d7d8;
    assert_eq!(annotation_set_path("s"), "annotation-sets/s");
    assert_eq!(promote_path("s"), "annotation-sets/s/promote");
    assert_eq!(items_path("s"), "annotation-sets/s/items");
    assert_eq!(items_query_path("s"), "annotation-sets/s/items/query");
    assert_eq!(item_path("s", id), "annotation-sets/s/items/a1a2a3a4-b1b2-c1c2-d1d2-d3d4d5d6d7d8");
    assert_eq!(item_path("s", 1), "annotation-sets/s/items/00000000-0000-0000-0000-000000000001");
    assert_eq!(item_reset_path("s", id), "annotation-sets/s/items/a1a2a3a4-b1b2-c1c2-d1d2-d3d4d5d6d7d8/reset");
    assert_eq!(include_data_query(true), pairs(&[("include_data", "true")]));
    assert_eq!(include_data_query(false), pairs(&[("include_data", "false")]));
}

#[test]
fn station_dataset_queries() {
    assert_eq!(dataset_download_path("cats", 2), "datasets/cats/versions/2/download");
    assert_eq!(dataset_items_path("cats", 2), "datasets/cats/versions/2/items");
    assert_eq!(QueryDatasetVersionsRequest { page: None, per_page: None }.query_pairs(), pairs(&[]));
    assert_eq!(
        QueryDatasetVersionsRequest { page: Some(2), per_page: Some(50) }.query_pairs(),
        pairs(&[("page", "2"), ("per_page", "50")])
    );
    assert_eq!(
        StreamDatasetVersionItemsRequest { cursor: Some(18446744073709551615), limit: None }.query_pairs(),
        pairs(&[("cursor", "18446744073709551615")])
    );
}

#[test]
fn station_experiment_queries() {
    assert_eq!(station_experiment::experiment_path(12), "experiments/12");
    assert_eq!(station_experiment::metrics_path(1), "experiments/1/metrics");
    assert_eq!(station_experiment::artifact_files_path(3, "art"), "experiments/3/artifacts/art/files");
    assert_eq!(station_experiment::realtime_logs_path(3), "experiments/3/logs/realtime");
    assert_eq!(ListExperimentsQuery { page: Some(1), per_page: None }.query_pairs(), pairs(&[("page", "1")]));
    assert_eq!(
        MetricSummaryQuery { metric: "loss".into() }.query_pairs(),
        pairs(&[("metric", "loss")])
    );
    assert_eq!(
        MetricAggregatedQuery { metric: "acc".into(), max_points: 500, downsampling_factor: -1 }.query_pairs(),
        pairs(&[("metric", "acc"), ("max_points", "500"), ("downsampling_factor", "-1")])
    );
    assert_eq!(ListArtifactsQuery { name: None }.query_pairs(), pairs(&[]));
    assert_eq!(ListArtifactsQuery { name: Some("ckpt".into()) }.query_pairs(), pairs(&[("name", "ckpt")]));
    assert_eq!(LogUrlsQuery { start: Some(0) }.query_pairs(), pairs(&[("start", "0")]));
}

#[test]
fn station_model_paths() {
    assert_eq!(station_model::model_path("m"), "models/m");
    assert_eq!(station_model::model_version_path("m", 4), "models/m/versions/4");
    assert_eq!(station_model::model_download_path("m", 4), "models/m/versions/4/download");
}
