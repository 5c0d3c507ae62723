//! Bridge between a row-at-a-time host scan protocol and a producer of
//! columnar batches, with the catalog and object-store bookkeeping that
//! scans and table creation rely on.

pub mod batch;
pub mod catalog;
pub mod catalog_laws;
pub mod directory;
pub mod durability;
pub mod error;
pub mod options;
pub mod plan;
pub mod preparation;
pub mod registry;
pub mod scan;
pub mod scan_laws;
pub mod source;
pub mod stream;
pub mod text;
pub mod value;
