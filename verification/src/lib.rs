//! Builds a bundled Lua source tree into a static library for a target
//! triple.
//!
//! A [`Build`] holds the configuration. [`Build::try_build`] plans the build
//! and starts a [`BuildRun`], which asks its driver for one [`Action`] after
//! the other and takes an [`Event`] in reply to each, until it ends with the
//! [`Artifacts`] or with a [`BuildError`].

pub mod artifacts;
pub mod catalog;
pub mod config;
pub mod error;
pub mod job;
pub mod plan;
pub mod platform;
pub mod run;
pub mod staging;
pub mod text;
pub mod toolchain;

pub use crate::artifacts::Artifacts;
pub use crate::catalog::Version;
pub use crate::catalog::Version::{Lua51, Lua52, Lua53, Lua54};
pub use crate::config::{Build, Environment};
pub use crate::error::BuildError;
pub use crate::run::{Action, BuildRun, Event};
