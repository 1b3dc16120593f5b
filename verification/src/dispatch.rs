use vstd::prelude::*;

use crate::address::addr_valid;
use crate::config::init_config;
use crate::config::MailConfig;
use crate::error::DispatchError;
use crate::message::build_email;
use crate::message::sender_of;
use crate::transport::deliver;

verus! {

/// The dispatch pipeline against a given configuration: build the message,
/// then hand it to the transport the configuration selects.
///
/// The contract pins the whole error taxonomy. A build failure is reported
/// exactly when an address is invalid, and in that case no transport is
/// involved; a relay failure can only come out of a configured dispatch, and
/// a file-drop failure only out of an unconfigured one.
pub fn dispatch_with(
    config: &Option<MailConfig>,
    recipient: &str,
    subject: &str,
    body: &str,
) -> (r: Result<(), DispatchError>)
    ensures
        r == Err::<(), DispatchError>(DispatchError::BuildError) <==> !(addr_valid(recipient@)
            && addr_valid(sender_of(*config))),
        r == Err::<(), DispatchError>(DispatchError::SendFailure) ==> config is Some,
        r == Err::<(), DispatchError>(DispatchError::WriteFailure) ==> config is None,
        addr_valid(recipient@) && addr_valid(sender_of(*config)) && config is Some ==> r is Ok
            || r == Err::<(), DispatchError>(DispatchError::SendFailure),
        addr_valid(recipient@) && addr_valid(sender_of(*config)) && config is None ==> r is Ok
            || r == Err::<(), DispatchError>(DispatchError::WriteFailure),
        r is Ok ==> addr_valid(recipient@) && addr_valid(sender_of(*config)),
{
    let msg = match build_email(recipient, subject, body, config) {
        Ok(m) => m,
        Err(e) => {
            return Err(e);
        },
    };
    deliver(config, &msg)
}

/// Dispatches one message: resolves the configuration as of this call,
/// builds the message, and sends it through the selected transport. The
/// configuration is resolved fresh on every call and no state survives a
/// call, so two calls with identical arguments are two independent
/// deliveries.
pub fn send_email(recipient: &str, subject: &str, body: &str) -> (r: Result<(), DispatchError>)
    ensures
        !addr_valid(recipient@) ==> r == Err::<(), DispatchError>(DispatchError::BuildError),
        r is Ok ==> addr_valid(recipient@),
{
    let config = init_config();
    dispatch_with(&config, recipient, subject, body)
}

} // verus!
