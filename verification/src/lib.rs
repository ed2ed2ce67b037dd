//! Uploading one image asset: the alpha-bleed transform on the decoded image
//! and the two upload protocols, written as pure steps that a caller drives.

pub mod alpha_bleed;
pub mod api;
pub mod auth;
pub mod commands;
pub mod header;
pub mod http;
pub mod json;
pub mod nearest;
pub mod options;
pub mod raster;
pub mod text;
