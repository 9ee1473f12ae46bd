//! What the session hands to the presentation.

pub mod prompt_box;
