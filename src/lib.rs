//! Scaffolding of a Godot project whose native code is written in Rust.
//!
//! The library computes everything that a scaffolding run does: the
//! normalized project name, the project directory, the text of each
//! generated file and the ordered list of filesystem steps. Carrying the
//! steps out against a real filesystem is left to the caller.

pub mod naming;
pub mod project;
pub mod templates;

pub use naming::name_formatter;
pub use templates::{
    cargo_text_for, gdnlib_text_for, get_cargo_text, get_gdnlib_text, get_godot_text,
    get_output_text, get_rustlib_text, output_text_for,
};
pub use project::{join_path, Project, Step};
