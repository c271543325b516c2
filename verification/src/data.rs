//! The records that the inventory reports and the requests that are sent to it.

use vstd::prelude::*;

verus! {

/// The body of a reply that reports a failure.
#[derive(Clone, Debug)]
pub struct ErrorResponse {
    pub status: String,
    pub timestamp: i64,
    pub errors: Vec<ErrorMessage>,
}

/// One failure in an `ErrorResponse`.
#[derive(Clone, Debug)]
pub struct ErrorMessage {
    pub error_key: String,
    pub error_message: String,
}

#[derive(Clone, Debug)]
pub struct LoginRequest {
    pub domain: String,
    pub password: String,
    pub username: String,
}

#[derive(Clone, Debug)]
pub struct LoginResponse {
    pub access_token: String,
    pub refresh_token: String,
}

#[derive(Clone, Debug)]
pub struct LogoutRequest {
    pub refresh_token: String,
}

/// A user session. One that belongs to no desktop pool has no `desktop_pool_id`.
#[derive(Clone, Debug)]
pub struct Session {
    pub id: String,
    pub user_id: String,
    pub desktop_pool_id: Option<String>,
    pub agent_version: String,
    pub session_type: String,
    pub session_state: String,
    pub session_protocol: Option<String>,
}

#[derive(Clone, Debug)]
pub struct DesktopPool {
    pub id: String,
    pub enabled: bool,
}

#[derive(Clone, Debug)]
pub struct Machine {
    pub id: String,
    pub desktop_pool_id: String,
    pub operating_system: Option<String>,
    pub operating_system_architecture: Option<String>,
    pub state: String,
    pub mtype: String,
    pub user_ids: Option<Vec<String>>,
}

/// A filter on a listing: `filters` combined by `filter_type`.
#[derive(Clone, Debug)]
pub struct FilterPayload {
    pub filter_type: String,
    pub filters: Vec<FilterRequest>,
}

/// One comparison of a filter: the field `name` against `value`.
#[derive(Clone, Debug)]
pub struct FilterRequest {
    pub comparison: String,
    pub name: String,
    pub value: String,
}

} // verus!
