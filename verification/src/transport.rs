use vstd::prelude::*;

use lettre::Transport;

use crate::config::MailConfig;
use crate::error::DispatchError;
use crate::message::OutboundMessage;

verus! {

/// A message in lettre's sendable form, carried opaquely from assembly to
/// one of the two transports.
#[verifier::external_type_specification]
#[verifier::external_body]
pub struct ExSendableEmail(lettre::SendableEmail);

/// Relies on lettre_email's EmailBuilder: assembling a message with one
/// recipient and one sender succeeds exactly when both addresses pass
/// lettre's EmailAddress validation (the builder re-parses both when it
/// computes the envelope; the subject and body never make it fail).
#[verifier::external_body]
fn to_sendable(msg: &OutboundMessage) -> (r: Option<lettre::SendableEmail>)
    ensures
        r is Some <==> msg.wf(),
{
    lettre_email::Email::builder()
        .to(msg.recipient.as_str())
        .from(msg.sender.as_str())
        .subject(msg.subject.as_str())
        .body(msg.body.as_str())
        .build()
        .ok()
        .map(|e| e.into())
}

/// Relies on lettre's SmtpClient and Transport::send: opens a session to the
/// relay host, authenticates with plaintext credentials, enables UTF-8
/// message text, attempts the one send, and reports whether the relay
/// accepted the message. The session never escapes this call, so it is
/// released on every path out of it. The outcome depends on the network and
/// on the relay, so nothing more is promised of it.
#[verifier::external_body]
fn relay_send(config: &MailConfig, email: lettre::SendableEmail) -> (r: bool) {
    let client = match lettre::smtp::SmtpClient::new_simple(config.smtp_server.as_str()) {
        Ok(c) => c,
        Err(_) => return false,
    };
    let credentials = lettre::smtp::authentication::Credentials::new(
        config.smtp_login.clone(),
        config.smtp_password.clone(),
    );
    let mut transport = client
        .credentials(credentials)
        .smtp_utf8(true)
        .authentication_mechanism(lettre::smtp::authentication::Mechanism::Plain)
        .transport();
    transport.send(email).is_ok()
}

/// Relies on lettre's FileTransport: persists the message as one new file,
/// named by the fresh message id, in the local drop directory, and reports
/// whether the write succeeded. The outcome depends on the file system, so
/// nothing more is promised of it.
#[verifier::external_body]
fn file_drop_send(email: lettre::SendableEmail) -> (r: bool) {
    let mut sender = lettre::file::FileTransport::new(std::path::Path::new("/tmp"));
    sender.send(email).is_ok()
}

/// Hands the message to the transport the configuration selects: the
/// authenticated relay when credentials are configured, the local file drop
/// otherwise. The variant is chosen once; a failure is terminal for the
/// call, with no retry and no fallback to the other variant.
pub fn deliver(config: &Option<MailConfig>, msg: &OutboundMessage) -> (r: Result<
    (),
    DispatchError,
>)
    ensures
        r == Err::<(), DispatchError>(DispatchError::BuildError) <==> !msg.wf(),
        r == Err::<(), DispatchError>(DispatchError::SendFailure) ==> config is Some,
        r == Err::<(), DispatchError>(DispatchError::WriteFailure) ==> config is None,
        msg.wf() && config is Some ==> r is Ok || r == Err::<(), DispatchError>(
            DispatchError::SendFailure,
        ),
        msg.wf() && config is None ==> r is Ok || r == Err::<(), DispatchError>(
            DispatchError::WriteFailure,
        ),
        r is Ok ==> msg.wf(),
{
    let email = match to_sendable(msg) {
        Some(e) => e,
        None => {
            return Err(DispatchError::BuildError);
        },
    };
    match config {
        Some(c) => {
            if relay_send(c, email) {
                Ok(())
            } else {
                Err(DispatchError::SendFailure)
            }
        },
        None => {
            if file_drop_send(email) {
                Ok(())
            } else {
                Err(DispatchError::WriteFailure)
            }
        },
    }
}

} // verus!
