pub mod canonical;
pub mod checkpoint;
pub mod entry;
pub mod kv_store;
pub mod types;
