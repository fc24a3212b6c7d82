//! Tensors, their storage, and what may be read from them.
pub mod allocated;
pub mod buffer;
pub mod buffer_laws;
pub mod data;
pub mod data_laws;
pub mod mmap;
pub mod sparse;
pub mod strings;
pub mod tensor_laws;
pub mod value;
pub mod view;
