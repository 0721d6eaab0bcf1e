//! Abstract syntax tree for a statically-typed, class-based scripting
//! language with state-machine classes, generics and latent (suspendable)
//! functions. The tree is the intermediate representation that a parser
//! produces and that later passes (type checking, generics specialization,
//! code generation) consume read-only.

pub mod ast;
pub mod cascade;
pub mod chains;
pub mod errors;
pub mod folding;
pub mod generics;
pub mod registry;
pub mod resolve;
pub mod visit;
