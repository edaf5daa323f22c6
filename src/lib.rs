//! A differential fuzzer for the BLS12-381 and BLS12-377 precompiles: it
//! builds random input buffers in each operation's wire layout, compares the
//! node's answer with the reference executor's byte for byte, and drives
//! rounds over all operations until the first mismatch.

pub mod compare;
pub mod driver;
pub mod operation;
pub mod report;
pub mod rpc;
pub mod vector;
