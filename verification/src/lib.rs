//! A small transactional mail dispatcher.
//!
//! Given a recipient, a subject and a body, the dispatcher composes a mail
//! message and delivers it through one of two transports: an authenticated
//! network relay when credentials are configured, or a local file drop when
//! they are not. Two template operations (address confirmation and password
//! reset) render fixed English texts around a URL-safe encoding of an opaque
//! token and hand them to the dispatcher.

pub mod address;
pub mod config;
pub mod dispatch;
pub mod error;
pub mod message;
pub mod template;
pub mod token;
pub mod transport;
