use mailer::config::init_config;
use mailer::config::resolve_config;
use mailer::config::MailConfig;
use mailer::dispatch::dispatch_with;
use mailer::dispatch::send_email;
use mailer::error::DispatchError;
use mailer::message::build_email;
use mailer::template::confirmation_body;
use mailer::template::reset_body;
use mailer::template::try_send_confirm_email;
use mailer::template::try_send_reset_email;
use mailer::token::token_round_trip;

#[test]
fn sending_to_invalid_email_fails() {
    let result = send_email(
        "String.Format(\"{0}.{1}@toplog.cc\", FirstName, LastName)",
        "test",
        "test",
    );
    assert!(result.is_err());
}

#[test]
fn sending_to_valid_email_succeeds() {
    let result = send_email("****@gmail.com", "test", "test");
    assert!(result.is_ok());
}

#[test]
fn resolve_config_keeps_all_three_values() {
    let r = resolve_config(
        Some("login@example.com".to_string()),
        Some("secret".to_string()),
        Some("smtp.example.com".to_string()),
    );
    let c = r.expect("all three values are present and non-empty");
    assert_eq!(c.smtp_login, "login@example.com");
    assert_eq!(c.smtp_password, "secret");
    assert_eq!(c.smtp_server, "smtp.example.com");
}

#[test]
fn resolve_config_with_a_missing_value_is_unconfigured() {
    let r = resolve_config(Some("login@example.com".to_string()), None, Some("smtp.example.com".to_string()));
    assert!(r.is_none());
}

#[test]
fn resolve_config_with_an_empty_value_is_unconfigured() {
    let r = resolve_config(
        Some("login@example.com".to_string()),
        Some("".to_string()),
        Some("smtp.example.com".to_string()),
    );
    assert!(r.is_none());
}

#[test]
fn init_config_without_environment_values_is_unconfigured() {
    assert!(init_config().is_none());
}

#[test]
fn build_uses_the_default_sender_when_unconfigured() {
    let m = build_email("user@example.com", "s", "b", &None).expect("valid recipient");
    assert_eq!(m.sender, "test@toplog.cc");
    assert_eq!(m.recipient, "user@example.com");
    assert_eq!(m.subject, "s");
    assert_eq!(m.body, "b");
}

#[test]
fn build_uses_the_relay_login_as_sender_when_configured() {
    let config = Some(MailConfig {
        smtp_login: "sender@example.com".to_string(),
        smtp_password: "secret".to_string(),
        smtp_server: "smtp.example.com".to_string(),
    });
    let m = build_email("user@example.com", "s", "b", &config).expect("valid addresses");
    assert_eq!(m.sender, "sender@example.com");
}

#[test]
fn build_rejects_an_invalid_recipient() {
    let r = build_email("not-an-email", "s", "b", &None);
    assert_eq!(r.unwrap_err(), DispatchError::BuildError);
}

#[test]
fn build_rejects_an_invalid_relay_login_as_sender() {
    let config = Some(MailConfig {
        smtp_login: "no-at-sign".to_string(),
        smtp_password: "secret".to_string(),
        smtp_server: "smtp.example.com".to_string(),
    });
    let r = build_email("user@example.com", "s", "b", &config);
    assert_eq!(r.unwrap_err(), DispatchError::BuildError);
}

#[test]
fn dispatch_to_an_invalid_recipient_fails_with_build_error() {
    let r = send_email("not-an-email", "s", "b");
    assert_eq!(r, Err(DispatchError::BuildError));
}

#[test]
fn unconfigured_dispatch_to_a_valid_recipient_succeeds() {
    let r = dispatch_with(&None, "user@example.com", "s", "b");
    assert_eq!(r, Ok(()));
}

#[test]
fn configured_dispatch_to_an_unreachable_relay_fails_with_send_failure() {
    let config = Some(MailConfig {
        smtp_login: "sender@example.com".to_string(),
        smtp_password: "secret".to_string(),
        smtp_server: "localhost".to_string(),
    });
    let r = dispatch_with(&config, "user@example.com", "s", "b");
    assert_eq!(r, Err(DispatchError::SendFailure));
}

#[test]
fn two_identical_dispatches_are_two_independent_deliveries() {
    let first = send_email("user@example.com", "s", "b");
    let second = send_email("user@example.com", "s", "b");
    assert_eq!(first, Ok(()));
    assert_eq!(second, Ok(()));
}

#[test]
fn token_encoding_round_trips() {
    assert_eq!(token_round_trip("tok123"), "tok123");
}

#[test]
fn token_encoding_round_trips_on_awkward_tokens() {
    assert_eq!(token_round_trip(""), "");
    assert_eq!(token_round_trip("a/b+c=d?&#"), "a/b+c=d?&#");
    assert_eq!(token_round_trip("\u{7}caf\u{e9} \u{1f600}"), "\u{7}caf\u{e9} \u{1f600}");
}

#[test]
fn confirmation_body_embeds_the_encoded_link() {
    let body = confirmation_body("Alice", "tok123");
    assert!(body.starts_with("Hello Alice: "));
    assert!(body.contains("https://toplog.cc/confirm/dG9rMTIz"));
    assert!(body.contains("This link will expire in 48 hours."));
}

#[test]
fn reset_body_embeds_the_encoded_token_and_the_expiry() {
    let body = reset_body("Alice", "tok123");
    assert!(body.starts_with("Hello Alice: "));
    assert!(body.contains("\n\n dG9rMTIz \n\n"));
    assert!(body.contains("This Token will expire in 2 hours."));
}

#[test]
fn confirmation_email_dispatches_without_a_relay() {
    let r = try_send_confirm_email("a@b.com", "Alice", "tok123");
    assert_eq!(r, Ok(()));
}

#[test]
fn reset_email_dispatches_without_a_relay() {
    let r = try_send_reset_email("a@b.com", "Alice", "tok123");
    assert_eq!(r, Ok(()));
}
