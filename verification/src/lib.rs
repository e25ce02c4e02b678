//! Needle index subsystem of a Haystack-style object store.
//!
//! A volume packs many small payloads ("needles") into one append-only data
//! log; beside it sits a compact index file of fixed-width records mapping
//! each needle's key to its physical offset and size.  This crate provides
//! the in-memory key-to-location map, the binary codec for the 16-byte index
//! records, and the startup replay that rebuilds the map and its usage
//! metrics from the bytes of an index file.

pub mod codec;
pub mod needle_map;
pub mod needle_value_map;

pub use codec::encode_idx_entry;
pub use codec::idx_entry;
pub use needle_map::IndexFileError;
pub use needle_map::NeedleMapType;
pub use needle_map::walk_index_file;
pub use needle_map::NeedleMapper;
pub use needle_value_map::MemoryNeedleValueMap;
pub use needle_value_map::NeedleValue;
pub use needle_value_map::NeedleValueMap;
