//! Packaging and publishing of containerised addon bundles.
//!
//! - [`validate`]: the rules that a manifest has to meet, and the first rule
//!   that a manifest breaks.
//! - [`login`]: the state machine of the login, with a silent refresh of a
//!   cached session and the device-authorisation grant.
//! - [`targets`]: the images to build, one for each build file of a supported
//!   architecture.
//! - [`docker_registry`]: the run that builds, inspects and pushes the images
//!   and keeps what became of each.
//! - [`registry`]: the local copy of the registry's catalog, and the record
//!   that publishes an addon.
//! - [`tooling`]: whether the build tool is recent enough.
//! - [`dto`]: the data that the stages hand to each other.
//! - [`text`], [`pattern`], [`clock`]: texts, regular expressions and the time.
//!
//! The library decides and computes; reading files, talking to servers and
//! starting tools is left to its caller. Each state machine says what is to
//! be done next and takes what came of it.

pub mod clock;
pub mod docker_registry;
pub mod dto;
pub mod login;
pub mod pattern;
pub mod registry;
pub mod targets;
pub mod text;
pub mod tooling;
pub mod validate;
