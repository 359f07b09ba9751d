//! Comment dividers and headers: decorative banner lines built from a text,
//! a target width, a language's comment delimiters and a style.

pub mod style;
pub mod text;
pub mod languages;
pub mod settings;
pub mod extension;
pub mod laws;
pub mod commands;
