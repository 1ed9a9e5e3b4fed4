//! The two decisions of the shared HTTP client factory. The factory
//! itself — building a networking client, attaching a proxy — has no
//! state machine of its own and stays outside the library; only its
//! choices are stated here.

use vstd::prelude::*;

verus! {

/// Which client serves a requested timeout: one of the two shared
/// clients, or a freshly built one.
#[derive(Clone, Copy, PartialEq, Eq, Structural, Debug)]
pub enum ClientChoice {
    /// The shared client with the standard 15-second timeout.
    Shared,
    /// The shared client with the long 60-second timeout.
    SharedLong,
    /// A client built for this request's own timeout.
    Fresh,
}

/// Pick the client for a requested timeout: the shared clients cover
/// the two standard timeouts, anything else gets its own.
pub fn choose_client(timeout_secs: u64) -> (r: ClientChoice)
    ensures
        timeout_secs == 15 ==> r == ClientChoice::Shared,
        timeout_secs == 60 ==> r == ClientChoice::SharedLong,
        timeout_secs != 15 && timeout_secs != 60 ==> r == ClientChoice::Fresh,
{
    if timeout_secs == 15 {
        ClientChoice::Shared
    } else if timeout_secs == 60 {
        ClientChoice::SharedLong
    } else {
        ClientChoice::Fresh
    }
}

/// An upstream proxy is applied exactly when it is enabled and its URL
/// is nonempty.
pub fn should_use_proxy(enabled: bool, url: &str) -> (r: bool)
    ensures
        r == (enabled && url@.len() > 0),
{
    enabled && !url.is_empty()
}

} // verus!
