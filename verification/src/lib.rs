//! A client library for the OCI/Docker container ecosystem: manifest schema
//! probing, platform selection, bearer-token authentication, and the layer
//! whiteout and path-safety rules used when materializing image filesystems.

use vstd::prelude::*;

pub mod auth;
pub mod go;
pub mod image;
pub mod image_config;
pub mod json;
pub mod manifest;
pub mod paths;
pub mod registry;
pub mod runtime;
pub mod text;

verus! {

/// Top-level error: either the registry engine or the unpack engine failed.
#[derive(Debug)]
pub enum ClientError {
    RegistryError(registry::RegistryError),
    UnpackError(paths::UnpackError),
}

} // verus!
