//! Reads MediaWiki XML dumps into sites, pages and revisions, and turns wiki
//! markup into plain text.

pub mod compression;
pub mod config;
pub mod markup;
pub mod parser;
pub mod scanner;
pub mod site;
pub mod text;
pub mod wiki;
pub mod xml;

pub use parser::Parser;
pub use scanner::ParseError;
pub use site::{Page, PageRevision, Site};
