//! Window and OpenGL context probing: the configuration, diagnostics and
//! event decisions behind a small windowed test program, with their contracts.

pub mod config;
pub mod handler;
pub mod settings;
pub mod text;
pub mod ui;
