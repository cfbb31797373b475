//! Compilation-stage exploration without the I/O: the catalog of stages, the
//! arguments the toolchain is run with for each of them, the reading of what a
//! run produced, and the policy that bounds the text handed back.

pub mod api;
pub mod compiler;
pub mod output;
pub mod stage;
pub mod text;
