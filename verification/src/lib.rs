use vstd::prelude::*;

pub mod adaptor;
pub mod decoder;
pub mod decoder_model;
pub mod descriptor;
pub mod error;
pub mod handler;
pub mod negotiate;
pub mod payload;
pub mod reply;
pub mod status;
pub mod text;
pub mod upload_map;

verus! {

/// Largest upload accepted when no other limit is configured: two mebibytes.
pub const DEFAULT_MAX_FILE_SIZE: usize = 2097152;

/// Largest number of uploaded files accepted when no other limit is configured.
pub const DEFAULT_MAX_FILE_COUNT: usize = 9;

} // verus!
