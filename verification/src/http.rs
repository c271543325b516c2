//! Serving scrapes: which request gets which reply, and how the client that
//! talks to the inventory is set up.

use vstd::prelude::*;
use crate::configuration::Configuration;
use crate::constants::{
    DEFAULT_TIMEOUT, METRICS_PATH, REPLY_METHOD_NOT_ALLOWED, REPLY_NOT_FOUND, ROOT_HTML,
};

verus! {

/// The replies that the exporter gives.
#[derive(Clone, Copy, Debug, PartialEq, Eq, Structural)]
pub enum Reply {
    /// The page that points to the metrics.
    Root,
    /// The metrics, after one reconciliation cycle.
    Metrics,
    NotFound,
    MethodNotAllowed,
}

/// The reply to a request: a method other than GET is not allowed; GET gets
/// the root page at `/`, the metrics at the metrics path, and nothing elsewhere.
pub open spec fn routed(is_get: bool, url: Seq<char>) -> Reply {
    if !is_get {
        Reply::MethodNotAllowed
    } else if url == "/"@ {
        Reply::Root
    } else if url == METRICS_PATH@ {
        Reply::Metrics
    } else {
        Reply::NotFound
    }
}

/// The reply to a request.
pub fn route(is_get: bool, url: &str) -> (reply: Reply)
    ensures
        reply == routed(is_get, url@),
{
    if !is_get {
        return Reply::MethodNotAllowed;
    }
    let asked = url.to_string();
    let root = "/".to_string();
    let metrics = METRICS_PATH.to_string();
    if asked == root {
        Reply::Root
    } else if asked == metrics {
        Reply::Metrics
    } else {
        Reply::NotFound
    }
}

/// The status code of a reply.
pub fn status_code(reply: Reply) -> (code: u16)
    ensures
        code == match reply {
            Reply::Root => 302u16,
            Reply::Metrics => 200u16,
            Reply::NotFound => 404u16,
            Reply::MethodNotAllowed => 405u16,
        },
{
    match reply {
        Reply::Root => 302,
        Reply::Metrics => 200,
        Reply::NotFound => 404,
        Reply::MethodNotAllowed => 405,
    }
}

/// The body of a reply, but for the metrics, whose body a cycle gives.
pub fn fixed_payload(reply: Reply) -> (payload: Option<&'static str>)
    ensures
        match reply {
            Reply::Root => payload == Some(ROOT_HTML),
            Reply::Metrics => payload.is_none(),
            Reply::NotFound => payload == Some(REPLY_NOT_FOUND),
            Reply::MethodNotAllowed => payload == Some(REPLY_METHOD_NOT_ALLOWED),
        },
{
    match reply {
        Reply::Root => Some(ROOT_HTML),
        Reply::Metrics => None,
        Reply::NotFound => Some(REPLY_NOT_FOUND),
        Reply::MethodNotAllowed => Some(REPLY_METHOD_NOT_ALLOWED),
    }
}

/// How the inventory's certificate is checked.
#[derive(Clone, Debug)]
pub enum Trust {
    /// Any certificate and any host name are taken.
    Anything,
    /// The certificate must go back to the authority in this file.
    Authority(String),
    /// The certificate must go back to an authority that the system knows.
    System,
}

/// How the client that talks to the inventory is set up.
#[derive(Clone, Debug)]
pub struct ClientSettings {
    pub trust: Trust,
    pub timeout: u64,
}

/// The certificate check that `cfg` asks for: none where it says so, whatever
/// else it says; else against its authority file, if it names one.
pub open spec fn trust_of(cfg: Configuration) -> Trust {
    if cfg.horizon_api.insecure_ssl == Some(true) {
        Trust::Anything
    } else if cfg.horizon_api.ca_file.is_some() && cfg.horizon_api.ca_file.unwrap()@.len() > 0 {
        Trust::Authority(cfg.horizon_api.ca_file.unwrap())
    } else {
        Trust::System
    }
}

/// The time in seconds that a call may take: what `cfg` says, else the default.
pub open spec fn timeout_of(cfg: Configuration) -> u64 {
    match cfg.horizon_api.timeout {
        Some(seconds) => seconds,
        None => DEFAULT_TIMEOUT,
    }
}

/// How the client is set up for `cfg`.
pub fn client_settings(cfg: &Configuration) -> (settings: ClientSettings)
    ensures
        settings.trust == trust_of(*cfg),
        settings.timeout == timeout_of(*cfg),
{
    let insecure_ssl = match cfg.horizon_api.insecure_ssl {
        Some(v) => v,
        None => false,
    };
    let timeout = match cfg.horizon_api.timeout {
        Some(v) => v,
        None => DEFAULT_TIMEOUT,
    };
    let trust = if insecure_ssl {
        Trust::Anything
    } else {
        match &cfg.horizon_api.ca_file {
            Some(file) => if file.as_str().is_empty() {
                Trust::System
            } else {
                Trust::Authority(file.clone())
            },
            None => Trust::System,
        }
    };
    ClientSettings { trust, timeout }
}

} // verus!
