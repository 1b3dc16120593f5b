use vstd::prelude::*;

verus! {

/// A complete relay credential set, immutable once resolved.
#[derive(Debug)]
pub struct MailConfig {
    pub smtp_login: String,
    pub smtp_password: String,
    pub smtp_server: String,
}

impl MailConfig {
    /// A usable credential set: all three values are non-empty.
    pub open spec fn wf(&self) -> bool {
        &&& self.smtp_login@.len() > 0
        &&& self.smtp_password@.len() > 0
        &&& self.smtp_server@.len() > 0
    }
}

/// All three raw configuration values are present and non-empty.
pub open spec fn config_complete(
    login: Option<String>,
    password: Option<String>,
    server: Option<String>,
) -> bool {
    &&& login matches Some(l) && l@.len() > 0
    &&& password matches Some(p) && p@.len() > 0
    &&& server matches Some(s) && s@.len() > 0
}

/// Combines the three raw configuration values: a full credential set when
/// all three are present and non-empty, `None` otherwise. There is no
/// partial state: one missing or empty value makes the whole result `None`.
pub fn resolve_config(
    login: Option<String>,
    password: Option<String>,
    server: Option<String>,
) -> (r: Option<MailConfig>)
    ensures
        r is Some <==> config_complete(login, password, server),
        r matches Some(c) ==> login == Some(c.smtp_login) && password == Some(c.smtp_password)
            && server == Some(c.smtp_server),
{
    match (login, password, server) {
        (Some(l), Some(p), Some(s)) => {
            if l.as_str().is_empty() || p.as_str().is_empty() || s.as_str().is_empty() {
                None
            } else {
                Some(MailConfig { smtp_login: l, smtp_password: p, smtp_server: s })
            }
        },
        _ => None,
    }
}

/// Relies on dotenv::var: reads one named configuration value from the
/// process environment or a dotenv file. The outcome depends on the
/// environment at the time of the call.
#[verifier::external_body]
fn read_config_var(name: &str) -> (r: Option<String>) {
    dotenv::var(name).ok()
}

/// Resolves the relay configuration as of this call: reads the three named
/// values and combines them. A missing or empty value is a normal state
/// that selects the file-drop transport, not an error.
pub fn init_config() -> (r: Option<MailConfig>)
    ensures
        r matches Some(c) ==> c.wf(),
{
    let login = read_config_var("MAIL_SMTP_LOGIN");
    let password = read_config_var("MAIL_SMTP_PASSWORD");
    let server = read_config_var("MAIL_SMTP_SERVER");
    resolve_config(login, password, server)
}

} // verus!
