//! Runtime connection core: the decision of whether a connection attempt
//! yielded a usable session, and the plain textual status events the broker
//! emits about build and lifecycle outcomes.

use vstd::prelude::*;
use vstd::string::*;

verus! {

/// What the broker keeps of an established runtime session: the version the
/// handshake reported, used only for diagnostics. The transport handle itself
/// lives with the caller that performed the connection.
#[derive(Debug)]
pub struct SessionInfo {
    pub version: String,
}

/// Decides a connection attempt: a completed handshake yields a session, any
/// failure — endpoint absent or handshake error — yields the explicit
/// no-connection result, never anything fatal to the caller. One attempt is
/// decided per call; retry policy belongs to the caller.
pub fn connection_outcome(handshake: Result<String, String>) -> (r: Option<SessionInfo>)
    ensures
        r is Some <==> handshake is Ok,
        handshake matches Ok(v) ==> r matches Some(s) && s.version == v,
        handshake is Err ==> r is None,
{
    match handshake {
        Result::Ok(version) => Option::Some(SessionInfo { version }),
        Result::Err(_) => Option::None,
    }
}

/// The plain textual event emitted about one build or lifecycle transition:
/// the subject's identifier, a separator, and the outcome.
pub fn status_event(subject_id: &str, success: bool) -> (r: String)
    ensures
        r@ == subject_id@ + (if success {
            ": success"@
        } else {
            ": failure"@
        }),
{
    if success {
        String::from_str(subject_id).concat(": success")
    } else {
        String::from_str(subject_id).concat(": failure")
    }
}

} // verus!
