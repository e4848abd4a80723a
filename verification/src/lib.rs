//! A freedesktop-style thumbnail cache: cache paths, fingerprints, provenance
//! metadata, freshness checks, helper discovery and the generation pipeline.

pub mod error;
pub mod file;
pub mod generate;
pub mod hash;
pub mod provenance;
pub mod sizes;
pub mod text;
pub mod thumbnail;
pub mod thumbnailer;

pub use error::ThumbnailError;
pub use generate::generate_thumbnail;
pub use hash::compute_hash;
pub use provenance::write_out_thumbnail;
pub use sizes::ThumbnailSize;
pub use thumbnail::parse_file;
