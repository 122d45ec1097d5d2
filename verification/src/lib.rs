//! Planning and bookkeeping for merging model weight files: the parent
//! registry, the per-tensor merge plan, the output manifest, and the binary
//! container formats that tensors are read from and written to.
//!
//! Floating-point values are carried as their bit patterns; the arithmetic
//! on tensor values is left to the caller.

// Sequences, text and numbers.
pub mod seqs;
pub mod text;
pub mod numfmt;
pub mod error;
pub mod json;

// Models and the containers they are read from.
pub mod model;
pub mod inspect;
pub mod gguf;
pub mod gguf_file;
pub mod gguf_info;
pub mod safetensors;
pub mod tensor_io;
pub mod elements;

// The parents of a merge.
pub mod registry;
pub mod compatibility;
pub mod summary;

// Configuring, planning and carrying out a merge.
pub mod config;
pub mod methods;
pub mod slicing;
pub mod validation;
pub mod experts;
pub mod planner;
pub mod precompute;
pub mod projections;
pub mod executor;

// Writing the result.
pub mod output;
pub mod gguf_write;
pub mod gguf_meta;
pub mod gguf_laws;
pub mod gguf_transplant;
