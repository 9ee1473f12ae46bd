//! A typing-practice trainer: a queue of prompts to type, an input buffer
//! edited by whole characters, keyboard-layout remapping, a character-wise
//! comparison of input and prompt for display, and the session's state
//! machine over key events.

pub mod app;
pub mod components;
pub mod input_buffer;
pub mod keyboard_mapping;
pub mod prompt_queue;
pub mod text;
pub mod word_source;
