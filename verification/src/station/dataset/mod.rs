//! Datasets of a station: what each request is addressed to.

pub mod request;
pub mod response;

use vstd::prelude::*;
use crate::text::{pairs_view, optional_number_pair, push_optional_number, widen, widen_spec, owned, push_text, u64_text, decimal};
use request::{QueryDatasetVersionsRequest, StreamDatasetVersionItemsRequest};
use crate::address::text_of;
use crate::transport::{api_url_with_query, api_url_with_query_spec};

verus! {

/// Path of the dataset collection.
pub const DATASETS_PATH: &'static str = "datasets";

/// Path of dataset queries.
pub const DATASETS_QUERY_PATH: &'static str = "datasets/query";

/// Path of the versions of a dataset.
pub fn dataset_versions_path(dataset_name: &str) -> (path: String)
    ensures
        path@ == "datasets/"@ + dataset_name@ + "/versions"@,
{
    let mut path = owned("datasets/");
    push_text(&mut path, dataset_name);
    push_text(&mut path, "/versions");
    path
}

/// Path that presigns the download of a dataset version.
pub fn dataset_download_path(dataset_name: &str, version: u32) -> (path: String)
    ensures
        path@ == "datasets/"@ + dataset_name@ + "/versions/"@ + decimal(version as nat) + "/download"@,
{
    let mut path = owned("datasets/");
    push_text(&mut path, dataset_name);
    push_text(&mut path, "/versions/");
    let digits = u64_text(version as u64);
    push_text(&mut path, digits.as_str());
    push_text(&mut path, "/download");
    path
}

/// Path of the items of a dataset version.
pub fn dataset_items_path(dataset_name: &str, version: u32) -> (path: String)
    ensures
        path@ == "datasets/"@ + dataset_name@ + "/versions/"@ + decimal(version as nat) + "/items"@,
{
    let mut path = owned("datasets/");
    push_text(&mut path, dataset_name);
    push_text(&mut path, "/versions/");
    let digits = u64_text(version as u64);
    push_text(&mut path, digits.as_str());
    push_text(&mut path, "/items");
    path
}

impl QueryDatasetVersionsRequest {
    /// The query versions are listed with: `page` and `per_page`, each when set.
    pub fn query_pairs(&self) -> (pairs: Vec<(String, String)>)
        ensures
            pairs_view(pairs@) == optional_number_pair("page"@, widen_spec(self.page))
                + optional_number_pair("per_page"@, widen_spec(self.per_page)),
    {
        let mut pairs: Vec<(String, String)> = Vec::new();
        assert(pairs_view(pairs@) =~= Seq::empty());
        push_optional_number(&mut pairs, "page", widen(self.page));
        push_optional_number(&mut pairs, "per_page", widen(self.per_page));
        pairs
    }
}

impl StreamDatasetVersionItemsRequest {
    /// The query a page of items is streamed with: the cursor to resume
    /// from and the page size, each when set.
    pub fn query_pairs(&self) -> (pairs: Vec<(String, String)>)
        ensures
            pairs_view(pairs@) == optional_number_pair("cursor"@, self.cursor)
                + optional_number_pair("limit"@, widen_spec(self.limit)),
    {
        let mut pairs: Vec<(String, String)> = Vec::new();
        assert(pairs_view(pairs@) =~= Seq::empty());
        push_optional_number(&mut pairs, "cursor", self.cursor);
        push_optional_number(&mut pairs, "limit", widen(self.limit));
        pairs
    }
}

/// The URL the versions of a dataset are listed at, with `page` and
/// `per_page` in the query when set.
pub fn dataset_versions_url(base: &str, dataset_name: &str, request: &QueryDatasetVersionsRequest) -> (r: Option<String>)
    ensures
        text_of(r) == api_url_with_query_spec(
            base@,
            "datasets/"@ + dataset_name@ + "/versions"@,
            optional_number_pair("page"@, widen_spec(request.page))
                + optional_number_pair("per_page"@, widen_spec(request.per_page)),
        ),
{
    let path = dataset_versions_path(dataset_name);
    api_url_with_query(base, path.as_str(), &request.query_pairs())
}

/// The URL a page of the items of a dataset version is streamed from, with
/// the cursor and the page size in the query when set.
pub fn dataset_items_url(
    base: &str,
    dataset_name: &str,
    version: u32,
    request: &StreamDatasetVersionItemsRequest,
) -> (r: Option<String>)
    ensures
        text_of(r) == api_url_with_query_spec(
            base@,
            "datasets/"@ + dataset_name@ + "/versions/"@ + decimal(version as nat) + "/items"@,
            optional_number_pair("cursor"@, request.cursor)
                + optional_number_pair("limit"@, widen_spec(request.limit)),
        ),
{
    let path = dataset_items_path(dataset_name, version);
    api_url_with_query(base, path.as_str(), &request.query_pairs())
}

} // verus!
