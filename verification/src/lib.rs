//! Dialog core of a SIP user agent: dialog identity, digest authentication,
//! the dialog state machine, request and response construction, the dialog
//! registry, and the REGISTER client with public-address discovery.
pub mod msg;
pub mod parse;
pub mod ident;
pub mod fmt;
pub mod auth;
pub mod dialog;
pub mod client;
pub mod server;
pub mod layer;
pub mod registration;
