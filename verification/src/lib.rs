//! The decision core of a version manager plugin for the Rust toolchain.
//!
//! Given a version specifier, the core resolves it to a channel of the
//! installer, derives the platform triple of the host, decides step by step
//! how an installation proceeds, and reconstructs the installed versions
//! from the names of the installer's toolchain directories. It performs no
//! input or output: the caller runs the commands that the core asks for and
//! reports what came of them.

pub mod command;
pub mod error;
pub mod helpers;
pub mod install;
pub mod inventory;
pub mod proto;
pub mod text;
pub mod triple;
pub mod version;
