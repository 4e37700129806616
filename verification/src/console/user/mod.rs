//! Users, as the console reports them.

pub use crate::user::response;
