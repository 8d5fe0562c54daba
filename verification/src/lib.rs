//! Request-orchestration core for an interactive search client.
//!
//! The library owns the session's committed result set ([`session`]), the
//! single outstanding search-request slot with its debounce-by-superseding
//! queue ([`scheduler`]), and the attribute/tag mutation dispatcher with its
//! tag staging buffer ([`dispatcher`]). It decides, for every user input and
//! every arriving response, what the next session state is and which network
//! call — if any — must be issued; the caller performs the transport and hands
//! the outcome back. Request paths for the server's wire protocol are built in
//! [`wire`]. The guarantees the core gives across calls are stated and proved
//! in [`laws`].

pub mod dispatcher;
pub mod laws;
pub mod model;
pub mod query;
pub mod scheduler;
pub mod session;
pub mod wire;
