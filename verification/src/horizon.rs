//! Talking to the inventory: where each call goes, which replies are taken,
//! and what is said of one that is not.

use vstd::prelude::*;
use vstd::string::StringExecFns;
use crate::configuration::Configuration;
use crate::constants::{
    REST_DESKTOP_POOLS, REST_LOGIN, REST_LOGOUT, REST_MACHINES, REST_SESSIONS,
};
use crate::data::{ErrorMessage, ErrorResponse, FilterPayload, FilterRequest, Session};

verus! {

/// The calls that are made to the inventory.
#[derive(Clone, Copy, Debug, PartialEq, Eq, Structural)]
pub enum Call {
    Login,
    Logout,
    Sessions,
    SessionOfMachine,
    DesktopPools,
    Machines,
}

/// What a reply's status means for a call.
#[derive(Clone, Copy, Debug, PartialEq, Eq, Structural)]
pub enum Verdict {
    /// The reply holds what was asked for.
    Accepted,
    /// There is nothing of the kind that was asked for; this is no failure.
    Nothing,
    /// The call failed.
    Failed,
}

/// The percent-encoded form of a text, as `urlencoding::encode` gives it.
pub uninterp spec fn url_encoded(text: Seq<char>) -> Seq<char>;

/// Calls `urlencoding::encode`. Trusted: the result is what `url_encoded`
/// names, a function of the characters of `text` alone.
#[verifier::external_body]
pub(crate) fn url_encode(text: &str) -> (encoded: String)
    ensures
        encoded@ == url_encoded(text@),
{
    urlencoding::encode(text).into_owned()
}

/// The path of a call below the address of the inventory.
pub open spec fn call_path(call: Call) -> Seq<char> {
    match call {
        Call::Login => REST_LOGIN@,
        Call::Logout => REST_LOGOUT@,
        Call::Sessions => REST_SESSIONS@,
        Call::SessionOfMachine => REST_SESSIONS@,
        Call::DesktopPools => REST_DESKTOP_POOLS@,
        Call::Machines => REST_MACHINES@,
    }
}

/// The address to which `call` goes: the configured address and the call's path.
pub fn rest_url(cfg: &Configuration, call: Call) -> (url: String)
    ensures
        url@ == cfg.horizon_api.url@ + call_path(call),
{
    let mut url = cfg.horizon_api.url.clone();
    match call {
        Call::Login => url.append(REST_LOGIN),
        Call::Logout => url.append(REST_LOGOUT),
        Call::Sessions => url.append(REST_SESSIONS),
        Call::SessionOfMachine => url.append(REST_SESSIONS),
        Call::DesktopPools => url.append(REST_DESKTOP_POOLS),
        Call::Machines => url.append(REST_MACHINES),
    }
    url
}

/// The filter that selects the sessions of one machine.
pub fn machine_filter(machine_id: &str) -> (filter: FilterPayload)
    ensures
        filter.filter_type@ == "And"@,
        filter.filters@.len() == 1,
        filter.filters@[0].comparison@ == "Equals"@,
        filter.filters@[0].name@ == "machine_id"@,
        filter.filters@[0].value@ == machine_id@,
{
    let mut filter = FilterPayload { filter_type: String::from_str("And"), filters: Vec::new() };
    let mid_filter = FilterRequest {
        comparison: String::from_str("Equals"),
        name: String::from_str("machine_id"),
        value: String::from_str(machine_id),
    };
    filter.filters.push(mid_filter);
    filter
}

/// The address that lists the sessions which `filter` selects; `filter` is the
/// filter as it is written out for the inventory.
pub fn filtered_sessions_url(cfg: &Configuration, filter: &str) -> (url: String)
    ensures
        url@ == cfg.horizon_api.url@ + REST_SESSIONS@ + "?filter="@ + url_encoded(filter@),
{
    let encoded_filter = url_encode(filter);
    let mut url = cfg.horizon_api.url.clone();
    url.append(REST_SESSIONS);
    url.append("?filter=");
    url.append(encoded_filter.as_str());
    url
}

/// What the status of a reply means: 200 is taken; 404 says, to the call for
/// the session of a machine alone, that there is none; all else is a failure.
pub open spec fn verdict(call: Call, status: u16) -> Verdict {
    if status == 200 {
        Verdict::Accepted
    } else if status == 404 && call == Call::SessionOfMachine {
        Verdict::Nothing
    } else {
        Verdict::Failed
    }
}

/// What the status of a reply means for `call`.
pub fn judge_status(call: Call, status: u16) -> (judged: Verdict)
    ensures
        judged == verdict(call, status),
{
    if status == 200 {
        Verdict::Accepted
    } else if status == 404 && call == Call::SessionOfMachine {
        Verdict::Nothing
    } else {
        Verdict::Failed
    }
}

/// The first of the sessions that were listed for a machine, if any.
pub fn first_session(sessions: Vec<Session>) -> (first: Option<Session>)
    ensures
        sessions@.len() == 0 ==> first.is_none(),
        sessions@.len() > 0 ==> first == Some(sessions@[0]),
{
    let mut sessions = sessions;
    if sessions.len() == 0 {
        None
    } else {
        Some(sessions.swap_remove(0))
    }
}

/// One reported failure as text: its key, a colon and a blank, its message.
pub open spec fn error_text(error: ErrorMessage) -> Seq<char> {
    error.error_key@ + ": "@ + error.error_message@
}

/// The reported failures as one text: each as `error_text` gives it, with a
/// comma and a blank between two.
pub open spec fn joined_errors(errors: Seq<ErrorMessage>) -> Seq<char>
    decreases errors.len(),
{
    if errors.len() == 0 {
        Seq::empty()
    } else if errors.len() == 1 {
        error_text(errors[0])
    } else {
        joined_errors(errors.drop_last()) + ", "@ + error_text(errors.last())
    }
}

/// What the body of a failed reply says, as one text. `decoded` is the body
/// as it was decoded, or why it could not be.
pub open spec fn error_message_text(decoded: Result<ErrorResponse, String>) -> Seq<char> {
    match decoded {
        Ok(response) => joined_errors(response.errors@),
        Err(why) => "Can't decode response as JSON - "@ + why@,
    }
}

/// What the body of a failed reply says, as one text.
pub fn format_error_message(decoded: &Result<ErrorResponse, String>) -> (text: String)
    ensures
        text@ == error_message_text(*decoded),
{
    match decoded {
        Ok(response) => {
            let mut text = String::new();
            let mut i: usize = 0;
            assert(response.errors@.take(0) =~= Seq::<ErrorMessage>::empty());
            while i < response.errors.len()
                invariant
                    i <= response.errors@.len(),
                    text@ == joined_errors(response.errors@.take(i as int)),
                decreases response.errors@.len() - i,
            {
                let ghost so_far = response.errors@.take(i as int);
                let ghost wider = response.errors@.take(i + 1);
                assert(wider.drop_last() =~= so_far);
                assert(wider.last() == response.errors@[i as int]);
                if i > 0 {
                    text.append(", ");
                }
                text.append(response.errors[i].error_key.as_str());
                text.append(": ");
                text.append(response.errors[i].error_message.as_str());
                assert(text@ =~= joined_errors(wider)) by {
                    if i == 0 {
                        assert(so_far.len() == 0);
                        assert(wider.len() == 1);
                        assert(wider[0] == response.errors@[0]);
                    }
                }
                i = i + 1;
            }
            assert(response.errors@.take(i as int) =~= response.errors@);
            text
        },
        Err(why) => {
            let mut text = String::from_str("Can't decode response as JSON - ");
            text.append(why.as_str());
            text
        },
    }
}

/// The call in words, as a failure names it.
pub open spec fn call_words(call: Call) -> Seq<char> {
    match call {
        Call::Login => "login"@,
        Call::Logout => "logout"@,
        Call::Sessions => "getting sessions"@,
        Call::SessionOfMachine => "getting session of machine"@,
        Call::DesktopPools => "getting desktop pools"@,
        Call::Machines => "getting machines"@,
    }
}

/// The statuses that a call takes, in words: 200, and for the session of a
/// machine 404 too.
pub open spec fn hoped_for(call: Call) -> Seq<char> {
    match call {
        Call::SessionOfMachine => "200 or 404"@,
        _ => "200"@,
    }
}

/// What is said of a call whose reply was not taken: which call failed, the
/// status that came, the statuses that were hoped for, and what the body said.
pub open spec fn failure_text(call: Call, status: Seq<char>, detail: Seq<char>) -> Seq<char> {
    call_words(call) + " failed, received "@ + status + " instead of "@ + hoped_for(call) + ": "@
        + detail
}

/// What is said of a call whose reply was not taken. `status` is the status as
/// text, `detail` what the body said.
pub fn failure_message(call: Call, status: &str, detail: &str) -> (text: String)
    ensures
        text@ == failure_text(call, status@, detail@),
{
    let mut text = match call {
        Call::Login => String::from_str("login"),
        Call::Logout => String::from_str("logout"),
        Call::Sessions => String::from_str("getting sessions"),
        Call::SessionOfMachine => String::from_str("getting session of machine"),
        Call::DesktopPools => String::from_str("getting desktop pools"),
        Call::Machines => String::from_str("getting machines"),
    };
    text.append(" failed, received ");
    text.append(status);
    text.append(" instead of ");
    match call {
        Call::SessionOfMachine => text.append("200 or 404"),
        _ => text.append("200"),
    }
    text.append(": ");
    text.append(detail);
    text
}

} // verus!
