//! A client for a remote DNS-lookup service: the persisted endpoint setting,
//! the translation of command-line input into a lookup request, the JSON body
//! sent to the service, and the rendering of its answer.

pub mod text;
pub mod request;
pub mod render;
pub mod config;
pub mod command;
