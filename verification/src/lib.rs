//! Administrative debug bridge between an inbound request/response RPC
//! surface and a backend bundler/mempool service spoken to over a second,
//! strongly typed RPC transport.
//!
//! The bridge itself is stateless: every operation builds one outbound
//! request, hands it to the transport, and maps the outcome back into the
//! inbound protocol's response or error shape. Those builders and mappers
//! are the logic of this crate and are verified here; the transport calls
//! themselves live outside the library.

pub mod bridge;
pub mod sort;
pub mod types;
pub mod wire;
