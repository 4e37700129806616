//! Fleet devices: what each request is addressed to, and how it is
//! authenticated.

pub mod request;
pub mod response;

use vstd::prelude::*;
use crate::text::owned;
use crate::transport::Auth;

verus! {

/// Path that registers a device and exchanges its credentials for a token.
pub const REGISTER_PATH: &'static str = "fleets/device/register";

/// Path that syncs device state with the fleet.
pub const SYNC_PATH: &'static str = "fleets/device/sync";

/// Path that presigns the download of the fleet's model.
pub const MODEL_DOWNLOAD_PATH: &'static str = "fleets/device/model/download";

/// Path that ingests telemetry of a device.
pub const TELEMETRY_PATH: &'static str = "fleets/device/telemetry";

/// The credentials a device request is sent with: its token, as a bearer.
pub fn bearer_auth(auth_token: &str) -> (auth: Auth)
    ensures
        auth matches Auth::Bearer(t) && t@ == auth_token@,
{
    Auth::Bearer(owned(auth_token))
}

} // verus!
