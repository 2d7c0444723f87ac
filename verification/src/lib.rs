//! Link-preview metadata: the rules that turn a fetched page and its address
//! into the fields of a preview card.

pub mod document;
pub mod fields;
pub mod handler;
pub mod pipeline;
pub mod resolver;
