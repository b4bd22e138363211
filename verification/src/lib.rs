//! Backend command surface of a small desktop application shell.
//!
//! Two commands are exposed to the host's UI layer: a greeter that embeds a
//! name in a fixed template, and an opener that hands a URL to the operating
//! system's default handler and reports any failure as readable text.

pub mod greeting;
pub mod opener;
