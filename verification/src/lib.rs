//! A server-rendered front end for a content-listing service: the typed
//! decoding of the service's JSON into a data model, the decisions of the
//! OAuth flow, and the model of each page that is rendered.
//!
//! Nothing here reads or writes: a handler hands in what it received and
//! gets back what to send.

pub mod auth;
pub mod constants;
pub mod field;
pub mod json;
pub mod reddit;
pub mod text;
