//! Execution-trace assembly for a STARK virtual machine: padding and
//! concatenating component traces, randomizing their tail rows, building the
//! running-product auxiliary column, reading evaluation frames, and the
//! Rescue-style round function behind the sponge.
pub mod field;
pub mod coin;
pub mod trace;
pub mod sponge;
