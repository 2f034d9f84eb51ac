//! File delivery and lifecycle rules of a file-sharing service: the naming of
//! stored files, the decision who may see an upload, the assembly of
//! archives, the expiration sweep and the ingestion of branding assets.

pub mod text;
pub mod codec;
pub mod digest;
pub mod number;
pub mod settings;
pub mod assets;
pub mod access;
pub mod models;
pub mod download;
pub mod archive;
pub mod sweep;
pub mod monitor;
pub mod admin;
