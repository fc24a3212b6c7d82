//! A verified runtime layer for prepared tensor inference.
pub mod calls;
pub mod element;
pub mod element_laws;
pub mod error;
pub mod hash_laws;
pub mod memory;
pub mod memory_laws;
pub mod message_laws;
pub mod option_laws;
pub mod plan_laws;
pub mod queue_laws;
pub mod ratio;
pub mod record_laws;
pub mod runtime;
pub mod serde_support;
pub mod session;
pub mod session_options;
pub mod shape;
pub mod shape_plan;
pub mod spsc;
pub mod tensor;
pub mod text;
pub mod threading;
pub mod type_info;
