use vstd::prelude::*;

use crate::address::addr_valid;
use crate::dispatch::send_email;
use crate::error::DispatchError;
use crate::token::b64url_encode;
use crate::token::b64url_of;

verus! {

/// The rendered text of a confirmation message: a greeting, a confirmation
/// link embedding the URL-safe encoding of the token, and a 48-hour expiry
/// notice.
pub open spec fn confirmation_body_of(user: Seq<char>, code: Seq<char>) -> Seq<char> {
    "Hello "@ + user
        + ": \n\n Welcome to toplog.cc. Please click or copy to browser the link below to verify your email address. Thank you! \n\n https://toplog.cc/confirm/"@
        + code
        + " \n\n This link will expire in 48 hours. \n\n\n The Toplog Team"@
}

/// The rendered text of a password-reset message: a greeting, the URL-safe
/// encoding of the token as a copyable code, and a 2-hour expiry notice.
pub open spec fn reset_body_of(user: Seq<char>, code: Seq<char>) -> Seq<char> {
    "Hello "@ + user
        + ": \n\n Someone (hopefully you) requested we reset your password at Toplog. \n\n The Token to reset password as below:\n\n "@
        + code
        + " \n\n This Token will expire in 2 hours. If not you, just ignore this message. \n\n\n The Toplog Team"@
}

/// Renders the confirmation text around the URL-safe encoding of the token.
pub fn confirmation_body(user_name: &str, token: &str) -> (r: String)
    ensures
        r@ == confirmation_body_of(user_name@, b64url_of(token@)),
{
    let code = b64url_encode(token);
    let mut text = "Hello ".to_owned();
    text.append(user_name);
    text.append(
        ": \n\n Welcome to toplog.cc. Please click or copy to browser the link below to verify your email address. Thank you! \n\n https://toplog.cc/confirm/",
    );
    text.append(code.as_str());
    text.append(" \n\n This link will expire in 48 hours. \n\n\n The Toplog Team");
    text
}

/// Renders the password-reset text around the URL-safe encoding of the
/// token.
pub fn reset_body(user_name: &str, token: &str) -> (r: String)
    ensures
        r@ == reset_body_of(user_name@, b64url_of(token@)),
{
    let code = b64url_encode(token);
    let mut text = "Hello ".to_owned();
    text.append(user_name);
    text.append(
        ": \n\n Someone (hopefully you) requested we reset your password at Toplog. \n\n The Token to reset password as below:\n\n ",
    );
    text.append(code.as_str());
    text.append(
        " \n\n This Token will expire in 2 hours. If not you, just ignore this message. \n\n\n The Toplog Team",
    );
    text
}

/// Renders the verification message for the given user and token and
/// dispatches it to the given address.
pub fn try_send_confirm_email(email: &str, user_name: &str, token: &str) -> (r: Result<
    (),
    DispatchError,
>)
    ensures
        !addr_valid(email@) ==> r == Err::<(), DispatchError>(DispatchError::BuildError),
        r is Ok ==> addr_valid(email@),
{
    let subject = "Please verify your email address";
    let body = confirmation_body(user_name, token);
    send_email(email, subject, body.as_str())
}

/// Renders the password-reset message for the given user and token and
/// dispatches it to the given address.
pub fn try_send_reset_email(email: &str, user_name: &str, token: &str) -> (r: Result<
    (),
    DispatchError,
>)
    ensures
        !addr_valid(email@) ==> r == Err::<(), DispatchError>(DispatchError::BuildError),
        r is Ok ==> addr_valid(email@),
{
    let subject = "Please Reset Your password";
    let body = reset_body(user_name, token);
    send_email(email, subject, body.as_str())
}

} // verus!
