//! What is known of a video, and the text that a model reads about it.

pub mod dossier;
pub mod evidence;
pub mod model;
