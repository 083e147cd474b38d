//! A forward-only scan adapter over a spreadsheet export document.

pub mod document;
pub mod envelope;
pub mod error;
pub mod json;
pub mod mapper;
pub mod number;
pub mod request;
pub mod scan;
pub mod schema;
pub mod text;
