//! Where videos come from.

pub mod discovery;
pub mod download;
pub mod intake;
pub mod scrapecreators;
pub mod url;
