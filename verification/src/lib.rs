//! A virtual overlay-network node driven by a foreign network engine.
//!
//! The engine is reached through a fixed status-code call surface; this crate
//! owns everything on the near side of that boundary: the configuration and
//! life-cycle state machine of a server handle, the bounded diagnostic-message
//! channel, and the descriptor-handoff protocol by which freshly accepted
//! connections cross from the engine into the caller's ownership.

pub mod config;
pub mod conn;
pub mod diag;
pub mod engine;
pub mod errors;
pub mod handoff;
pub mod listener;
pub mod server;
pub mod tsnet;

pub use config::Config;
pub use config::ConfigBuilder;
pub use conn::Connection;
pub use diag::ErrFetch;
pub use engine::DialCall;
pub use engine::EngineOp;
pub use engine::Lifecycle;
pub use engine::ListenCall;
pub use engine::RemoteAddrCall;
pub use errors::Error;
pub use errors::TailscaleError;
pub use listener::ControlSegment;
pub use listener::Listener;
pub use server::Server;
pub use server::ServerBuilder;
pub use tsnet::TSNet;
