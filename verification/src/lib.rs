//! Gathers the cookies that a locally installed browser has stored and
//! returns those that match caller-supplied filters in a cookie jar, so
//! that they can be used with HTTP clients.
//!
//! The library does no I/O. The caller reads the master profile
//! configuration, asks [`profile::get_default_profile_path`] where the
//! default profile lies, reads the recovery file and the cookie database
//! found there into a [`firefox::FirefoxSnapshot`], and hands that to
//! [`CookieFinder::find`]:
//!
//! - [`profile`] resolves the default profile directory;
//! - [`recovery`] validates, decompresses and decodes the recovery file;
//! - [`store`] turns database rows into cookies;
//! - [`filter`] decides which cookies are kept;
//! - [`firefox`] and [`finder`] merge the sources into one jar.
//!
//! Contracts speak of a jar through [`jar::jar_contents`], a map from
//! cookie names to cookies; [`laws`] states what follows from them.
pub mod errors;
pub mod filter;
pub mod finder;
pub mod firefox;
pub mod jar;
pub mod json;
pub mod laws;
pub mod profile;
pub mod record;
pub mod recovery;
pub mod store;

pub use filter::Attribute;
pub use finder::{Browser, CookieFinder, CookieFinderBuilder};
