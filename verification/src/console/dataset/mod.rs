//! Datasets of a console project: what each request is addressed to.

pub mod request;
pub mod response;

use vstd::prelude::*;
use crate::text::{owned, push_text, u64_text, decimal};

verus! {

/// Path of the datasets of a project.
pub fn datasets_path(namespace: &str, project_name: &str) -> (path: String)
    ensures
        path@ == "projects/"@ + namespace@ + "/"@ + project_name@ + "/datasets"@,
{
    let mut path = owned("projects/");
    push_text(&mut path, namespace);
    push_text(&mut path, "/");
    push_text(&mut path, project_name);
    push_text(&mut path, "/datasets");
    path
}

/// Path of dataset queries of a project.
pub fn datasets_query_path(namespace: &str, project_name: &str) -> (path: String)
    ensures
        path@ == "projects/"@ + namespace@ + "/"@ + project_name@ + "/datasets/query"@,
{
    let mut path = owned("projects/");
    push_text(&mut path, namespace);
    push_text(&mut path, "/");
    push_text(&mut path, project_name);
    push_text(&mut path, "/datasets/query");
    path
}

/// Path of a dataset.
pub fn dataset_path(namespace: &str, project_name: &str, dataset_name: &str) -> (path: String)
    ensures
        path@ == "projects/"@ + namespace@ + "/"@ + project_name@ + "/datasets/"@ + dataset_name@,
{
    let mut path = owned("projects/");
    push_text(&mut path, namespace);
    push_text(&mut path, "/");
    push_text(&mut path, project_name);
    push_text(&mut path, "/datasets/");
    push_text(&mut path, dataset_name);
    path
}

/// Path of the published versions of a dataset.
pub fn dataset_versions_path(namespace: &str, project_name: &str, dataset_name: &str) -> (path: String)
    ensures
        path@ == "projects/"@ + namespace@ + "/"@ + project_name@ + "/datasets/"@ + dataset_name@ + "/versions"@,
{
    let mut path = owned("projects/");
    push_text(&mut path, namespace);
    push_text(&mut path, "/");
    push_text(&mut path, project_name);
    push_text(&mut path, "/datasets/");
    push_text(&mut path, dataset_name);
    push_text(&mut path, "/versions");
    path
}

/// Path that starts an upload of a new dataset version.
pub fn dataset_uploads_path(namespace: &str, project_name: &str, dataset_name: &str) -> (path: String)
    ensures
        path@ == "projects/"@ + namespace@ + "/"@ + project_name@ + "/datasets/"@ + dataset_name@ + "/uploads"@,
{
    let mut path = owned("projects/");
    push_text(&mut path, namespace);
    push_text(&mut path, "/");
    push_text(&mut path, project_name);
    push_text(&mut path, "/datasets/");
    push_text(&mut path, dataset_name);
    push_text(&mut path, "/uploads");
    path
}

/// Path that appends items to a dataset upload.
pub fn upload_items_path(namespace: &str, project_name: &str, dataset_name: &str, upload_id: &str) -> (path: String)
    ensures
        path@ == "projects/"@ + namespace@ + "/"@ + project_name@ + "/datasets/"@ + dataset_name@ + "/uploads/"@ + upload_id@ + "/items"@,
{
    let mut path = owned("projects/");
    push_text(&mut path, namespace);
    push_text(&mut path, "/");
    push_text(&mut path, project_name);
    push_text(&mut path, "/datasets/");
    push_text(&mut path, dataset_name);
    push_text(&mut path, "/uploads/");
    push_text(&mut path, upload_id);
    push_text(&mut path, "/items");
    path
}

/// Path that publishes a dataset upload as a version.
pub fn upload_complete_path(namespace: &str, project_name: &str, dataset_name: &str, upload_id: &str) -> (path: String)
    ensures
        path@ == "projects/"@ + namespace@ + "/"@ + project_name@ + "/datasets/"@ + dataset_name@ + "/uploads/"@ + upload_id@ + "/complete"@,
{
    let mut path = owned("projects/");
    push_text(&mut path, namespace);
    push_text(&mut path, "/");
    push_text(&mut path, project_name);
    push_text(&mut path, "/datasets/");
    push_text(&mut path, dataset_name);
    push_text(&mut path, "/uploads/");
    push_text(&mut path, upload_id);
    push_text(&mut path, "/complete");
    path
}

/// Path that abandons a dataset upload.
pub fn upload_cancel_path(namespace: &str, project_name: &str, dataset_name: &str, upload_id: &str) -> (path: String)
    ensures
        path@ == "projects/"@ + namespace@ + "/"@ + project_name@ + "/datasets/"@ + dataset_name@ + "/uploads/"@ + upload_id@ + "/cancel"@,
{
    let mut path = owned("projects/");
    push_text(&mut path, namespace);
    push_text(&mut path, "/");
    push_text(&mut path, project_name);
    push_text(&mut path, "/datasets/");
    push_text(&mut path, dataset_name);
    push_text(&mut path, "/uploads/");
    push_text(&mut path, upload_id);
    push_text(&mut path, "/cancel");
    path
}

/// Path of the items of a dataset version, before its query.
pub fn version_items_path(namespace: &str, project_name: &str, dataset_name: &str, version: u32) -> (path: String)
    ensures
        path@ == "projects/"@ + namespace@ + "/"@ + project_name@ + "/datasets/"@ + dataset_name@ + "/versions/"@ + decimal(version as nat) + "/items"@,
{
    let mut path = owned("projects/");
    push_text(&mut path, namespace);
    push_text(&mut path, "/");
    push_text(&mut path, project_name);
    push_text(&mut path, "/datasets/");
    push_text(&mut path, dataset_name);
    push_text(&mut path, "/versions/");
    let digits = u64_text(version as u64);
    push_text(&mut path, digits.as_str());
    push_text(&mut path, "/items");
    path
}

/// The query of a page of items: `?index=<i>&limit=<l>`, each part only
/// when set, and nothing at all when neither is.
pub open spec fn items_query(index: Option<u64>, limit: Option<u32>) -> Seq<char> {
    match (index, limit) {
        (None, None) => Seq::empty(),
        (Some(i), None) => "?index="@ + decimal(i as nat),
        (None, Some(l)) => "?limit="@ + decimal(l as nat),
        (Some(i), Some(l)) => "?index="@ + decimal(i as nat) + "&limit="@ + decimal(l as nat),
    }
}

/// Whether `text` ends with `tail`.
pub open spec fn ends_with(text: Seq<char>, tail: Seq<char>) -> bool {
    text.len() >= tail.len() && text.subrange(text.len() - tail.len(), text.len() as int) == tail
}

/// A text ends with whatever was appended last.
pub proof fn lemma_ends_with_concat(head: Seq<char>, tail: Seq<char>)
    ensures
        ends_with(head + tail, tail),
{
    assert((head + tail).subrange((head + tail).len() - tail.len(), (head + tail).len() as int) =~= tail);
}

/// The parts of an item-page query do not depend on each other: with both
/// set, the query is the index part followed by the limit part, each as it
/// is when set alone; so the limit written is the limit asked for, whatever
/// the index, and the query ends with it.
pub proof fn lemma_items_query_parts(index: u64, limit: u32)
    ensures
        items_query(Some(index), Some(limit)) == items_query(Some(index), None) + "&"@
            + items_query(None, Some(limit)).drop_first(),
        items_query(Some(index), None) == "?index="@ + decimal(index as nat),
        items_query(None, Some(limit)) == "?limit="@ + decimal(limit as nat),
        items_query(Some(index), Some(limit)) == (items_query(Some(index), None) + "&"@) + ("limit="@ + decimal(
            limit as nat,
        )),
        items_query(None, Some(limit)) == seq!['?'] + ("limit="@ + decimal(limit as nat)),
        ends_with(items_query(Some(index), Some(limit)), "&limit="@ + decimal(limit as nat)),
        ends_with(items_query(None, Some(limit)), "?limit="@ + decimal(limit as nat)),
        items_query(None, None).len() == 0,
{
    let di = decimal(index as nat);
    let dl = decimal(limit as nat);
    reveal_strlit("&");
    reveal_strlit("?limit=");
    reveal_strlit("limit=");
    reveal_strlit("&limit=");
    assert("&limit="@ =~= "&"@ + "limit="@);
    assert("?limit="@ =~= seq!['?'] + "limit="@);
    let with_index = "?index="@ + di;
    assert(("?limit="@ + dl).drop_first() =~= "limit="@ + dl);
    assert(with_index + "&limit="@ + dl =~= (with_index + "&"@) + ("limit="@ + dl));
    assert(with_index + "&limit="@ + dl =~= with_index + ("&limit="@ + dl));
    assert("?limit="@ + dl =~= seq!['?'] + ("limit="@ + dl));
    lemma_ends_with_concat(with_index, "&limit="@ + dl);
    lemma_ends_with_concat(Seq::empty(), "?limit="@ + dl);
    assert(Seq::<char>::empty() + ("?limit="@ + dl) =~= "?limit="@ + dl);
}

/// Path of a page of items of a dataset version.
///
/// `index` is where to start, not how many have been seen: resume from the
/// last `entry_idx` received plus one, since the indices a version holds
/// need not be contiguous.
pub fn stream_items_path(
    namespace: &str,
    project_name: &str,
    dataset_name: &str,
    version: u32,
    index: Option<u64>,
    limit: Option<u32>,
) -> (path: String)
    ensures
        path@ == "projects/"@ + namespace@ + "/"@ + project_name@ + "/datasets/"@ + dataset_name@
            + "/versions/"@ + decimal(version as nat) + "/items"@ + items_query(index, limit),
        limit matches Some(l) ==> ends_with(path@, "limit="@ + decimal(l as nat)),
{
    let mut path = version_items_path(namespace, project_name, dataset_name, version);
    let ghost base = path@;
    match index {
        Some(i) => {
            push_text(&mut path, "?index=");
            let digits = u64_text(i);
            push_text(&mut path, digits.as_str());
            match limit {
                Some(l) => {
                    push_text(&mut path, "&limit=");
                    let digits = u64_text(l as u64);
                    push_text(&mut path, digits.as_str());
                },
                None => {},
            }
        },
        None => match limit {
            Some(l) => {
                push_text(&mut path, "?limit=");
                let digits = u64_text(l as u64);
                push_text(&mut path, digits.as_str());
            },
            None => {},
        },
    }
    assert(path@ =~= base + items_query(index, limit));
    proof {
        match (index, limit) {
            (Some(i), Some(l)) => {
                lemma_items_query_parts(i, l);
                let t = "limit="@ + decimal(l as nat);
                assert(path@ =~= (base + (items_query(Some(i), None) + "&"@)) + t);
                lemma_ends_with_concat(base + (items_query(Some(i), None) + "&"@), t);
            },
            (None, Some(l)) => {
                lemma_items_query_parts(0, l);
                let t = "limit="@ + decimal(l as nat);
                assert(path@ =~= (base + seq!['?']) + t);
                lemma_ends_with_concat(base + seq!['?'], t);
            },
            _ => {},
        }
    }
    path
}

} // verus!
