//! The asset side of the web gateway: which request paths name a bundled
//! asset, and how a bundled asset is answered.

pub mod asset_path;
pub mod percent;
pub mod static_files;
