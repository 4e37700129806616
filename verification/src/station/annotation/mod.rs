//! Annotation sets of a station: what each request is addressed to.

pub mod request;
pub mod response;

use vstd::prelude::*;
use crate::text::{pairs_view, push_pair, owned, push_text, uuid_text, hyphenated_uuid};
use crate::address::text_of;
use crate::transport::{api_url_with_query, api_url_with_query_spec};

verus! {

/// Path of the annotation set collection.
pub const ANNOTATION_SETS_PATH: &'static str = "annotation-sets";

/// Path of an annotation set.
pub fn annotation_set_path(annotation_set_name: &str) -> (path: String)
    ensures
        path@ == "annotation-sets/"@ + annotation_set_name@,
{
    let mut path = owned("annotation-sets/");
    push_text(&mut path, annotation_set_name);
    path
}

/// Path that promotes an annotation set to a dataset version.
pub fn promote_path(annotation_set_name: &str) -> (path: String)
    ensures
        path@ == "annotation-sets/"@ + annotation_set_name@ + "/promote"@,
{
    let mut path = owned("annotation-sets/");
    push_text(&mut path, annotation_set_name);
    push_text(&mut path, "/promote");
    path
}

/// Path of the items of an annotation set.
pub fn items_path(annotation_set_name: &str) -> (path: String)
    ensures
        path@ == "annotation-sets/"@ + annotation_set_name@ + "/items"@,
{
    let mut path = owned("annotation-sets/");
    push_text(&mut path, annotation_set_name);
    push_text(&mut path, "/items");
    path
}

/// Path of item queries of an annotation set.
pub fn items_query_path(annotation_set_name: &str) -> (path: String)
    ensures
        path@ == "annotation-sets/"@ + annotation_set_name@ + "/items/query"@,
{
    let mut path = owned("annotation-sets/");
    push_text(&mut path, annotation_set_name);
    push_text(&mut path, "/items/query");
    path
}

/// Path of an item of an annotation set.
pub fn item_path(annotation_set_name: &str, item_id: u128) -> (path: String)
    ensures
        path@ == "annotation-sets/"@ + annotation_set_name@ + "/items/"@ + hyphenated_uuid(item_id as nat),
{
    let mut path = owned("annotation-sets/");
    push_text(&mut path, annotation_set_name);
    push_text(&mut path, "/items/");
    let id = uuid_text(item_id);
    push_text(&mut path, id.as_str());
    path
}

/// Path that resets an item of an annotation set.
pub fn item_reset_path(annotation_set_name: &str, item_id: u128) -> (path: String)
    ensures
        path@ == "annotation-sets/"@ + annotation_set_name@ + "/items/"@ + hyphenated_uuid(item_id as nat) + "/reset"@,
{
    let mut path = owned("annotation-sets/");
    push_text(&mut path, annotation_set_name);
    push_text(&mut path, "/items/");
    let id = uuid_text(item_id);
    push_text(&mut path, id.as_str());
    push_text(&mut path, "/reset");
    path
}

/// The query an item is fetched with: whether to include its data.
pub fn include_data_query(include_data: bool) -> (pairs: Vec<(String, String)>)
    ensures
        pairs_view(pairs@) == seq![("include_data"@, if include_data { "true"@ } else { "false"@ })],
{
    let mut pairs: Vec<(String, String)> = Vec::new();
    assert(pairs_view(pairs@) =~= Seq::empty());
    let value = if include_data { owned("true") } else { owned("false") };
    push_pair(&mut pairs, "include_data", value);
    assert(pairs_view(pairs@) =~= seq![("include_data"@, if include_data { "true"@ } else { "false"@ })]);
    pairs
}

/// The URL an item of an annotation set is fetched from, saying in the
/// query whether its data comes along.
pub fn item_url(base: &str, annotation_set_name: &str, item_id: u128, include_data: bool) -> (r: Option<String>)
    ensures
        text_of(r) == api_url_with_query_spec(
            base@,
            "annotation-sets/"@ + annotation_set_name@ + "/items/"@ + hyphenated_uuid(item_id as nat),
            seq![("include_data"@, if include_data { "true"@ } else { "false"@ })],
        ),
{
    let path = item_path(annotation_set_name, item_id);
    api_url_with_query(base, path.as_str(), &include_data_query(include_data))
}

} // verus!
