//! A small English-to-Japanese dictionary web service: page routing,
//! session cookies and the lookup flow that consults a local store before
//! asking a web dictionary.

pub mod text;
pub mod session;
pub mod page_handler;
