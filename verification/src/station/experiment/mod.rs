//! Experiments of a station: what each request is addressed to.

pub mod request;
pub mod response;

use vstd::prelude::*;
use crate::text::{pairs_view, push_pair, optional_number_pair, push_optional_number, widen, widen_spec, owned, push_text, i64_text, signed_decimal};
use crate::address::text_of;
use crate::transport::{websocket_url_at, websocket_url_spec};
use crate::transport::{api_url_with_query, api_url_with_query_spec, api_url_with_optional_query, api_url_with_optional_query_spec};
use request::{ListArtifactsQuery, ListExperimentsQuery, LogUrlsQuery, MetricAggregatedQuery, MetricSummaryQuery};

verus! {

/// Path of the experiment collection.
pub const EXPERIMENTS_PATH: &'static str = "experiments";

/// Path of the latest experiment.
pub const LATEST_EXPERIMENT_PATH: &'static str = "experiments/latest";

/// Path of an experiment.
pub fn experiment_path(experiment_num: i32) -> (path: String)
    ensures
        path@ == "experiments/"@ + signed_decimal(experiment_num as int),
{
    let mut path = owned("experiments/");
    let digits = i64_text(experiment_num as i64);
    push_text(&mut path, digits.as_str());
    path
}

/// Path of the metric metadata of an experiment.
pub fn metric_metadata_path(experiment_num: i32) -> (path: String)
    ensures
        path@ == "experiments/"@ + signed_decimal(experiment_num as int) + "/metrics/metadata"@,
{
    let mut path = owned("experiments/");
    let digits = i64_text(experiment_num as i64);
    push_text(&mut path, digits.as_str());
    push_text(&mut path, "/metrics/metadata");
    path
}

/// Path of the metric summaries of an experiment.
pub fn metric_summary_path(experiment_num: i32) -> (path: String)
    ensures
        path@ == "experiments/"@ + signed_decimal(experiment_num as int) + "/metrics/summary"@,
{
    let mut path = owned("experiments/");
    let digits = i64_text(experiment_num as i64);
    push_text(&mut path, digits.as_str());
    push_text(&mut path, "/metrics/summary");
    path
}

/// Path of the aggregated metrics of an experiment.
pub fn metrics_path(experiment_num: i32) -> (path: String)
    ensures
        path@ == "experiments/"@ + signed_decimal(experiment_num as int) + "/metrics"@,
{
    let mut path = owned("experiments/");
    let digits = i64_text(experiment_num as i64);
    push_text(&mut path, digits.as_str());
    push_text(&mut path, "/metrics");
    path
}

/// Path of the WebSocket of an experiment run.
pub fn websocket_path(experiment_num: i32) -> (path: String)
    ensures
        path@ == "experiments/"@ + signed_decimal(experiment_num as int) + "/ws"@,
{
    let mut path = owned("experiments/");
    let digits = i64_text(experiment_num as i64);
    push_text(&mut path, digits.as_str());
    push_text(&mut path, "/ws");
    path
}

/// The URL of the WebSocket of an experiment run, under the API at `base`.
pub fn websocket_url(base: &str, experiment_num: i32) -> (r: Option<String>)
    ensures
        text_of(r) == websocket_url_spec(base@, "experiments/"@ + signed_decimal(experiment_num as int) + "/ws"@),
{
    let path = websocket_path(experiment_num);
    websocket_url_at(base, path.as_str())
}

/// Path that cancels an experiment.
pub fn cancel_path(experiment_num: i32) -> (path: String)
    ensures
        path@ == "experiments/"@ + signed_decimal(experiment_num as int) + "/cancel"@,
{
    let mut path = owned("experiments/");
    let digits = i64_text(experiment_num as i64);
    push_text(&mut path, digits.as_str());
    push_text(&mut path, "/cancel");
    path
}

/// Path of the artifacts of an experiment.
pub fn artifacts_path(experiment_num: i32) -> (path: String)
    ensures
        path@ == "experiments/"@ + signed_decimal(experiment_num as int) + "/artifacts"@,
{
    let mut path = owned("experiments/");
    let digits = i64_text(experiment_num as i64);
    push_text(&mut path, digits.as_str());
    push_text(&mut path, "/artifacts");
    path
}

/// Path that adds files to an artifact.
pub fn artifact_files_path(experiment_num: i32, artifact_id: &str) -> (path: String)
    ensures
        path@ == "experiments/"@ + signed_decimal(experiment_num as int) + "/artifacts/"@ + artifact_id@ + "/files"@,
{
    let mut path = owned("experiments/");
    let digits = i64_text(experiment_num as i64);
    push_text(&mut path, digits.as_str());
    push_text(&mut path, "/artifacts/");
    push_text(&mut path, artifact_id);
    push_text(&mut path, "/files");
    path
}

/// Path that completes the upload of an artifact.
pub fn artifact_complete_path(experiment_num: i32, artifact_id: &str) -> (path: String)
    ensures
        path@ == "experiments/"@ + signed_decimal(experiment_num as int) + "/artifacts/"@ + artifact_id@ + "/complete"@,
{
    let mut path = owned("experiments/");
    let digits = i64_text(experiment_num as i64);
    push_text(&mut path, digits.as_str());
    push_text(&mut path, "/artifacts/");
    push_text(&mut path, artifact_id);
    push_text(&mut path, "/complete");
    path
}

/// Path that presigns the download of an artifact.
pub fn artifact_download_path(experiment_num: i32, artifact_id: &str) -> (path: String)
    ensures
        path@ == "experiments/"@ + signed_decimal(experiment_num as int) + "/artifacts/"@ + artifact_id@ + "/download"@,
{
    let mut path = owned("experiments/");
    let digits = i64_text(experiment_num as i64);
    push_text(&mut path, digits.as_str());
    push_text(&mut path, "/artifacts/");
    push_text(&mut path, artifact_id);
    push_text(&mut path, "/download");
    path
}

/// Path of an artifact.
pub fn artifact_path(experiment_num: i32, artifact_id: &str) -> (path: String)
    ensures
        path@ == "experiments/"@ + signed_decimal(experiment_num as int) + "/artifacts/"@ + artifact_id@,
{
    let mut path = owned("experiments/");
    let digits = i64_text(experiment_num as i64);
    push_text(&mut path, digits.as_str());
    push_text(&mut path, "/artifacts/");
    push_text(&mut path, artifact_id);
    path
}

/// Path of the live logs of an experiment.
pub fn realtime_logs_path(experiment_num: i32) -> (path: String)
    ensures
        path@ == "experiments/"@ + signed_decimal(experiment_num as int) + "/logs/realtime"@,
{
    let mut path = owned("experiments/");
    let digits = i64_text(experiment_num as i64);
    push_text(&mut path, digits.as_str());
    push_text(&mut path, "/logs/realtime");
    path
}

/// Path of the stored logs of an experiment.
pub fn logs_path(experiment_num: i32) -> (path: String)
    ensures
        path@ == "experiments/"@ + signed_decimal(experiment_num as int) + "/logs"@,
{
    let mut path = owned("experiments/");
    let digits = i64_text(experiment_num as i64);
    push_text(&mut path, digits.as_str());
    push_text(&mut path, "/logs");
    path
}

impl ListExperimentsQuery {
    /// The query a listing is sent with: `page` and `per_page`, each when set.
    pub fn query_pairs(&self) -> (pairs: Vec<(String, String)>)
        ensures
            pairs_view(pairs@) == optional_number_pair("page"@, widen_spec(self.page))
                + optional_number_pair("per_page"@, widen_spec(self.per_page)),
    {
        let mut pairs: Vec<(String, String)> = Vec::new();
        assert(pairs_view(pairs@) =~= Seq::empty());
        push_optional_number(&mut pairs, "page", widen(self.page));
        push_optional_number(&mut pairs, "per_page", widen(self.per_page));
        pairs
    }
}

impl MetricSummaryQuery {
    /// The query a metric summary is asked with: the metric's name.
    pub fn query_pairs(&self) -> (pairs: Vec<(String, String)>)
        ensures
            pairs_view(pairs@) == seq![("metric"@, self.metric@)],
    {
        let mut pairs: Vec<(String, String)> = Vec::new();
        assert(pairs_view(pairs@) =~= Seq::empty());
        push_pair(&mut pairs, "metric", self.metric.clone());
        assert(pairs_view(pairs@) =~= seq![("metric"@, self.metric@)]);
        pairs
    }
}

impl MetricAggregatedQuery {
    /// The query aggregated metrics are asked with: the metric, the most
    /// points to return and the downsampling factor.
    pub fn query_pairs(&self) -> (pairs: Vec<(String, String)>)
        ensures
            pairs_view(pairs@) == seq![
                ("metric"@, self.metric@),
                ("max_points"@, signed_decimal(self.max_points as int)),
                ("downsampling_factor"@, signed_decimal(self.downsampling_factor as int)),
            ],
    {
        let mut pairs: Vec<(String, String)> = Vec::new();
        assert(pairs_view(pairs@) =~= Seq::empty());
        push_pair(&mut pairs, "metric", self.metric.clone());
        push_pair(&mut pairs, "max_points", i64_text(self.max_points));
        push_pair(&mut pairs, "downsampling_factor", i64_text(self.downsampling_factor));
        assert(pairs_view(pairs@) =~= seq![
            ("metric"@, self.metric@),
            ("max_points"@, signed_decimal(self.max_points as int)),
            ("downsampling_factor"@, signed_decimal(self.downsampling_factor as int)),
        ]);
        pairs
    }
}

impl ListArtifactsQuery {
    /// The query artifacts are listed with: the name to filter by, when set.
    pub fn query_pairs(&self) -> (pairs: Vec<(String, String)>)
        ensures
            pairs_view(pairs@) == match self.name {
                Some(n) => seq![("name"@, n@)],
                None => Seq::<(Seq<char>, Seq<char>)>::empty(),
            },
    {
        let mut pairs: Vec<(String, String)> = Vec::new();
        assert(pairs_view(pairs@) =~= Seq::empty());
        match &self.name {
            Some(n) => {
                push_pair(&mut pairs, "name", n.clone());
                assert(pairs_view(pairs@) =~= seq![("name"@, n@)]);
            },
            None => {},
        }
        pairs
    }
}

impl LogUrlsQuery {
    /// The query logs are asked with: the offset to start at, when set.
    pub fn query_pairs(&self) -> (pairs: Vec<(String, String)>)
        ensures
            pairs_view(pairs@) == optional_number_pair("start"@, self.start),
    {
        let mut pairs: Vec<(String, String)> = Vec::new();
        assert(pairs_view(pairs@) =~= Seq::empty());
        push_optional_number(&mut pairs, "start", self.start);
        assert(pairs_view(pairs@) =~= optional_number_pair("start"@, self.start));
        pairs
    }
}

/// The URL an experiment listing is sent to: the experiment collection,
/// with `page` and `per_page` in the query when set.
pub fn list_url(base: &str, query: &ListExperimentsQuery) -> (r: Option<String>)
    ensures
        text_of(r) == api_url_with_query_spec(
            base@,
            EXPERIMENTS_PATH@,
            optional_number_pair("page"@, widen_spec(query.page))
                + optional_number_pair("per_page"@, widen_spec(query.per_page)),
        ),
{
    api_url_with_query(base, EXPERIMENTS_PATH, &query.query_pairs())
}

/// The URL a metric summary is asked at, the metric named in the query.
pub fn metric_summary_url(base: &str, experiment_num: i32, query: &MetricSummaryQuery) -> (r: Option<String>)
    ensures
        text_of(r) == api_url_with_query_spec(
            base@,
            "experiments/"@ + signed_decimal(experiment_num as int) + "/metrics/summary"@,
            seq![("metric"@, query.metric@)],
        ),
{
    let path = metric_summary_path(experiment_num);
    api_url_with_query(base, path.as_str(), &query.query_pairs())
}

/// The URL aggregated metrics are asked at, with the metric, the most
/// points and the downsampling factor in the query.
pub fn metrics_url(base: &str, experiment_num: i32, query: &MetricAggregatedQuery) -> (r: Option<String>)
    ensures
        text_of(r) == api_url_with_query_spec(
            base@,
            "experiments/"@ + signed_decimal(experiment_num as int) + "/metrics"@,
            seq![
                ("metric"@, query.metric@),
                ("max_points"@, signed_decimal(query.max_points as int)),
                ("downsampling_factor"@, signed_decimal(query.downsampling_factor as int)),
            ],
        ),
{
    let path = metrics_path(experiment_num);
    api_url_with_query(base, path.as_str(), &query.query_pairs())
}

/// The URL the artifacts of an experiment are listed at; the query holds
/// the name filter when there is one and is absent otherwise.
pub fn list_artifacts_url(base: &str, experiment_num: i32, query: &ListArtifactsQuery) -> (r: Option<String>)
    ensures
        text_of(r) == api_url_with_optional_query_spec(
            base@,
            "experiments/"@ + signed_decimal(experiment_num as int) + "/artifacts"@,
            match query.name {
                Some(n) => seq![("name"@, n@)],
                None => Seq::<(Seq<char>, Seq<char>)>::empty(),
            },
        ),
{
    let path = artifacts_path(experiment_num);
    api_url_with_optional_query(base, path.as_str(), &query.query_pairs())
}

/// The URL the stored logs of an experiment are asked at; the query holds
/// the offset to start at when there is one and is absent otherwise.
pub fn logs_url(base: &str, experiment_num: i32, query: &LogUrlsQuery) -> (r: Option<String>)
    ensures
        text_of(r) == api_url_with_optional_query_spec(
            base@,
            "experiments/"@ + signed_decimal(experiment_num as int) + "/logs"@,
            optional_number_pair("start"@, query.start),
        ),
{
    let path = logs_path(experiment_num);
    api_url_with_optional_query(base, path.as_str(), &query.query_pairs())
}

} // verus!
