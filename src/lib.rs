//! Build-time configuration of JavaScript-to-WebAssembly code generation, and
//! the bootstrap state of the embedded runtime.

pub mod bootstrap;
pub mod codegen;
mod engine;
pub mod wit;
