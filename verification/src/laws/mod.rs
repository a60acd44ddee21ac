//! What holds of the library as a whole, said of what goes in and what comes out.

pub mod asking;
pub mod choices;
pub mod hearing;
pub mod keeping;
pub mod links;
pub mod listings;
pub mod models;
pub mod places;
pub mod reading;
pub mod rendering;
pub mod runs;
pub mod sights;
pub mod steps;
pub mod talk;
pub mod telling;
pub mod texts;
pub mod tooling;
pub mod videos;
