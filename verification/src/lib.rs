pub mod bytes;
pub mod error;
pub mod metadata;
pub mod text;
pub mod object_type;
pub mod io;
pub mod objects;
pub mod bigfile;
pub mod loader;
pub mod texture_util;
pub mod export;
pub mod laws;
