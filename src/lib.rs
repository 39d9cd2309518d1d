//! Protocol engine of a KDE Connect peer: packet model, pairing and session
//! decisions, discovery bookkeeping and payload port allocation.
use vstd::prelude::*;

pub mod client;
pub mod connections;
pub mod device;
pub mod discovery;
pub mod error;
pub mod framing;
pub mod keys;
pub mod packets;
pub mod payload;
pub mod text;
pub mod util;

verus! {

} // verus!
