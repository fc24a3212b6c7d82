//! How the configuration is written down as plain values, and read back.
//!
//! Text is written as a string, and is refused on reading where it holds a NUL byte. The level of
//! graph rewriting is written as the engine's number.
pub mod graph_opt;
pub mod kv_i64_pairs;
pub mod kv_pairs;
pub mod opt_cstr;
pub mod record;
