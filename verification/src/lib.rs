use vstd::prelude::*;

pub mod text;
pub mod models;
pub mod patterns;
pub mod parser;
pub mod engine;
pub mod detection;
pub mod siem;
pub mod lan;
pub mod translator;
pub mod syslog;
pub mod console_page;
pub mod sources;
pub mod collector;
pub mod llm;
pub mod response;
pub mod store;

verus! {
}
