use vstd::prelude::*;

verus! {

/// How a dispatch can fail.
///
/// A missing relay configuration is not an error: it selects the file-drop
/// transport. Every failure is returned to the caller; nothing is retried.
#[derive(Clone, Copy, Debug, PartialEq, Eq, Structural)]
pub enum DispatchError {
    /// The recipient or the chosen sender address failed syntactic
    /// validation; the message never reached a transport.
    BuildError,
    /// The relay could not be reached, rejected the authentication, or
    /// rejected the send.
    SendFailure,
    /// The fallback file drop could not persist the message.
    WriteFailure,
}

} // verus!
