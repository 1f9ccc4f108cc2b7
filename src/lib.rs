//! Guest-side development kit for sandboxed contracts: a little-endian wire
//! codec, hex and address text forms, a region-based memory ownership
//! protocol, the pure logic behind the host import surface, checked
//! arithmetic, and the signature validation behind generated dispatchers.
pub mod text;
pub mod hex;
pub mod types;
pub mod errors;
pub mod codec;
pub mod runtime;
pub mod math;
pub mod region;
pub mod abi;
