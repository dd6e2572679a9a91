//! The foreign-function boundary of a key-management client.
//!
//! - [`buffer`]: owning byte buffers that carry their release recipe, and
//!   borrowed views.
//! - [`error`]: the last-error slot and the status protocol of boundary calls.
//! - [`pointer`]: the check of inbound addresses.
//! - [`handles`]: caller-owned handles to objects the library keeps.
//! - [`keys`]: ML-KEM-512 key pairs and their serialized form.
//! - [`client`]: server identities and the client context.
//! - [`api`]: the entry points that compose all of the above.
use vstd::prelude::*;

pub mod api;
pub mod buffer;
pub mod client;
pub mod error;
pub mod handles;
pub mod keys;
pub mod pointer;

verus! {

} // verus!
