//! Certificate selection over the certificate store of an operating system:
//! find the certificates that are within their validity window, that carry a
//! given extension with a given value, and whose private key can be exported,
//! and report their names, their dates and their keys.
//!
//! The library is written without I/O. It never calls the store itself: it
//! names each native call as a [`native::Request`], takes what the call gave
//! back as a [`native::Reply`], and decides from that what comes next and
//! what the replies amount to. Its caller performs the calls.
//!
//! - [`cert_context`]: one certificate, and the questions about it, each a
//!   small state machine over requests and replies.
//! - [`cert_store`]: how a store is opened and how its certificates are walked.
//! - [`record`]: the record of one certificate, gathered question by question.
//! - [`store_reader`]: the scan of a whole store.
//! - [`answers`], [`conduct`], [`selection`]: what is proved of the questions,
//!   of every step of a scan, and of a whole scan.
//! - [`text`], [`name`], [`date`]: UTF-16 text, name strings and dates.

pub mod error;
pub mod text;
pub mod native;
pub mod date;
pub mod name;
pub mod cert_context;
pub mod cert_store;
pub mod record;
pub mod store_reader;
pub mod answers;
pub mod conduct;
pub mod selection;
