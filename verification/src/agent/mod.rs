//! The models, the tools that they may use, and what they get to read.

pub mod compaction;
pub mod context;
pub mod execute;
pub mod llm;
pub mod runner;
pub mod tools;
pub mod turn;
pub mod vision;
pub mod visit;
