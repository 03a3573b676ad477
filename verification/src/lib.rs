//! Scaffolding of C++ projects that are built with CMake.
//!
//! The library turns the tokens of a command line into a configuration,
//! renders the text resources of a project template with it, and lays out
//! the steps that create the project on disk. It touches no file itself: a
//! caller takes the steps one by one and reports how each went.
//!
//! - [`command`] reads the command line as a whole, [`error`] names what
//!   can be wrong with it.
//! - [`flags`] resolves named parameters, [`config`] builds the
//!   configuration from them.
//! - [`template`] is the registry of templates, [`const_data`] holds their
//!   text.
//! - [`render`] puts the configured values into the text, by the
//!   replacement of [`text`].
//! - [`materialize`] lays out the steps, [`project`] goes the whole way from
//!   a configuration to them, and [`run`] keeps the books of a run.
//! - [`pieces`] and [`builtin`] prove what rendering does to a template.

pub mod builtin;
pub mod command;
pub mod config;
pub mod const_data;
pub mod error;
pub mod flags;
pub mod materialize;
pub mod pieces;
pub mod project;
pub mod render;
pub mod run;
pub mod template;
pub mod text;
