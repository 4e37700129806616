//! Form bodies of the device authorization endpoints.

use vstd::prelude::*;

verus! {

/// Form body of `POST auth/device/code`.
#[derive(Clone, Debug)]
pub struct DeviceCodeRequest<'a> {
    pub client_id: &'a str,
}

/// Form body of `POST auth/token`.
#[derive(Clone, Debug)]
pub struct DeviceTokenRequest<'a> {
    pub grant_type: &'a str,
    pub device_code: &'a str,
    pub client_id: &'a str,
}

} // verus!
