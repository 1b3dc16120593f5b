use vstd::prelude::*;

use crate::address::addr_valid;
use crate::address::check_address;
use crate::config::MailConfig;
use crate::error::DispatchError;

verus! {

/// One outbound message: built fresh per dispatch, immutable, consumed by
/// exactly one transport, never persisted by the dispatcher itself.
#[derive(Debug)]
pub struct OutboundMessage {
    pub sender: String,
    pub recipient: String,
    pub subject: String,
    pub body: String,
}

impl OutboundMessage {
    /// The invariant of a built message: both addresses passed syntactic
    /// validation, so an invalid address never reaches a transport.
    pub open spec fn wf(&self) -> bool {
        addr_valid(self.sender@) && addr_valid(self.recipient@)
    }
}

/// The sender identity a given configuration chooses: the relay login when
/// credentials are configured, a fixed default identity otherwise.
pub open spec fn sender_of(config: Option<MailConfig>) -> Seq<char> {
    match config {
        Some(c) => c.smtp_login@,
        None => "test@toplog.cc"@,
    }
}

/// Validates the recipient and the chosen sender and assembles the message.
/// Validation happens here, at build time: a message with an address that
/// lettre would reject is never constructed, so an invalid address never
/// triggers a transport attempt.
pub fn build_email(
    recipient: &str,
    subject: &str,
    body: &str,
    config: &Option<MailConfig>,
) -> (r: Result<OutboundMessage, DispatchError>)
    ensures
        r is Ok <==> addr_valid(recipient@) && addr_valid(sender_of(*config)),
        r matches Ok(m) ==> m.wf() && m.sender@ == sender_of(*config) && m.recipient@
            == recipient@ && m.subject@ == subject@ && m.body@ == body@,
        r is Err ==> r == Err::<OutboundMessage, DispatchError>(DispatchError::BuildError),
{
    let sender: String = match config {
        Some(c) => c.smtp_login.clone(),
        None => "test@toplog.cc".to_owned(),
    };
    if !check_address(recipient) {
        return Err(DispatchError::BuildError);
    }
    if !check_address(sender.as_str()) {
        return Err(DispatchError::BuildError);
    }
    Ok(OutboundMessage {
        sender,
        recipient: recipient.to_owned(),
        subject: subject.to_owned(),
        body: body.to_owned(),
    })
}

} // verus!
