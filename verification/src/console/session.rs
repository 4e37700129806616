//! Turning credentials into a session.

pub use crate::session::{ApiKeyLoginRequest, SessionPlan, authenticate, login_form, session_from_set_cookie, API_KEY_LOGIN_PATH};
