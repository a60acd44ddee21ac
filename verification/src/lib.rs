//! ClipKnow: questions and answers about videos on social platforms.
//!
//! The library holds the rules of the program: how a link names a video, how
//! the answers of the scraping service become neutral records, what text a
//! language model gets to read, which tools it may call and what they cost, and
//! what of a conversation is kept. Reading and writing files, databases and
//! the network is the business of the program around it.

pub mod agent;
pub mod cli;
pub mod command;
pub mod content;
pub mod error;
pub mod ingest;
pub mod json;
pub mod laws;
pub mod outside;
pub mod settings;
pub mod store;
pub mod text;
pub mod wire;
