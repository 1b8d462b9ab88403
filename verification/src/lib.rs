//! Safe handles over a native tensor engine, written as a protocol core.
//!
//! The library never talks to the engine itself. Every operation is split in
//! two: a function that says which [`base::EngineCall`] has to be made, and a
//! function that takes the engine's [`base::EngineReply`] and decides what the
//! operation yields. Ownership of engine resources is kept in an explicit
//! [`shared::Ledger`] of share counts, so that the single release call for a
//! handle is a value the caller can see.
pub mod autograd;
pub mod base;
pub mod context;
pub mod dict;
pub mod ndarray;
pub mod op_map;
pub mod operator;
pub mod shared;
pub mod symbol;
