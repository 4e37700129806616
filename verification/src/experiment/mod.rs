//! Experiments of a project: what each request is addressed to.

pub mod websocket;

use vstd::prelude::*;
use crate::text::{owned, push_text, i64_text, signed_decimal};
use crate::address::text_of;
use crate::transport::{websocket_url_at, websocket_url_spec};

verus! {

/// Path of the experiments of a project.
pub fn experiments_path(owner_name: &str, project_name: &str) -> (path: String)
    ensures
        path@ == "projects/"@ + owner_name@ + "/"@ + project_name@ + "/experiments"@,
{
    let mut path = owned("projects/");
    push_text(&mut path, owner_name);
    push_text(&mut path, "/");
    push_text(&mut path, project_name);
    push_text(&mut path, "/experiments");
    path
}

/// Path of the WebSocket of an experiment run, before its scheme is switched.
pub fn websocket_path(owner_name: &str, project_name: &str, exp_num: i32) -> (path: String)
    ensures
        path@ == "projects/"@ + owner_name@ + "/"@ + project_name@ + "/experiments/"@ + signed_decimal(exp_num as int) + "/ws"@,
{
    let mut path = owned("projects/");
    push_text(&mut path, owner_name);
    push_text(&mut path, "/");
    push_text(&mut path, project_name);
    push_text(&mut path, "/experiments/");
    let digits = i64_text(exp_num as i64);
    push_text(&mut path, digits.as_str());
    push_text(&mut path, "/ws");
    path
}

/// The WebSocket URL of a run of experiment `exp_num` of a project, under
/// the API at `base`.
pub fn format_websocket_url(base: &str, owner_name: &str, project_name: &str, exp_num: i32) -> (r: Option<String>)
    ensures
        text_of(r) == websocket_url_spec(
            base@,
            "projects/"@ + owner_name@ + "/"@ + project_name@ + "/experiments/"@ + signed_decimal(exp_num as int) + "/ws"@,
        ),
{
    let path = websocket_path(owner_name, project_name, exp_num);
    websocket_url_at(base, path.as_str())
}

/// Path that cancels an experiment.
pub fn cancel_path(owner_name: &str, project_name: &str, exp_num: i32) -> (path: String)
    ensures
        path@ == "projects/"@ + owner_name@ + "/"@ + project_name@ + "/experiments/"@ + signed_decimal(exp_num as int) + "/cancel"@,
{
    let mut path = owned("projects/");
    push_text(&mut path, owner_name);
    push_text(&mut path, "/");
    push_text(&mut path, project_name);
    push_text(&mut path, "/experiments/");
    let digits = i64_text(exp_num as i64);
    push_text(&mut path, digits.as_str());
    push_text(&mut path, "/cancel");
    path
}

} // verus!
