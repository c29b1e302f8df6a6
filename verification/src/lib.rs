//! Minimal local initialization for HCL-style infrastructure projects.
//!
//! The crate discovers `module` blocks in a set of configuration files,
//! builds the module-resolution manifest that downstream tooling expects,
//! and renders that manifest as JSON.  File-system work (reading the
//! configuration files, writing the manifest, linking the plugin cache)
//! is left to the surrounding program; everything here is pure logic on
//! plain values.

pub mod cache;
pub mod error;
pub mod hcl_input;
pub mod json;
pub mod laws;
pub mod manifest;
pub mod model;
pub mod plan;
pub mod scan;
pub mod text;
