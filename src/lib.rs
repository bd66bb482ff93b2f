//! Bindings-side model of KJ's HTTP service surface: method and header
//! identifiers with fixed ordinals, a header store addressed by builtin
//! identifiers, and the bookkeeping that delivers a call's completion exactly
//! once while keeping borrowed handles alive until the engine lets go of them.
pub mod method;
pub mod header;
pub mod call;
pub mod service;
pub mod own;
