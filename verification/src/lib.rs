//! The core of a compiler driver: resolving target-triple strings into
//! target descriptors, rendering source-located diagnostics, and the
//! decisions of a compile pipeline whose tokenizer, parser, lowering and
//! code generator are outside collaborators that exchange plain values
//! with this library.
pub mod compile;
pub mod diag;
pub mod target;
pub mod text;
