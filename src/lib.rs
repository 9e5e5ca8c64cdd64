//! Small data-processing utilities: integer aggregation, pretty JSON
//! rendering of keyed records, and a configuration-driven processor.
pub mod aggregate;
pub mod processor;
pub mod serialize;

pub use aggregate::calculate_sum;
pub use processor::DataProcessor;
pub use serialize::{process_data, SerializationError};
pub use vstd::hash_map::StringHashMap;
