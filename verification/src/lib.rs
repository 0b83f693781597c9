//! Execution-context core of an Ethereum Virtual Machine: a journaled state with
//! transactional rollback, the factory that sets up `CREATE` frames, and the
//! handlers that settle a frame when it returns.

pub mod encoding;
pub mod primitives;
pub mod hash;
pub mod spec_id;
pub mod table;
pub mod eof;
pub mod eof_code;
pub mod eof_stack;
pub mod bytecode;
pub mod interpreter;
pub mod account;
pub mod journal_model;
pub mod journal_laws;
pub mod error;
pub mod db;
pub mod journaled_state;
pub mod env;
pub mod frame;
pub mod optimism;
pub mod context;
pub mod create;
