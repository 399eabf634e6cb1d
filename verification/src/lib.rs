//! Debug-adapter integration layer: locating, installing, launching, and
//! connecting to external debugger backends that speak a standardized
//! debug-adapter wire protocol.
//!
//! The library resolves a named backend to a concrete adapter variant, asks
//! the variant for a ready-to-run binary descriptor (negotiating a TCP
//! transport when the backend is socket-based), and builds the protocol
//! request payload for a launch or attach session. All host capabilities
//! that need the operating system (executable search, ephemeral-port
//! reservation, artifact download and extraction) sit behind the
//! [`delegate::DapDelegate`] trait, which the embedding host implements.

pub mod adapter;
pub mod decimal;
pub mod delegate;
pub mod errors;
pub mod go;
pub mod installer;
pub mod payload;
pub mod registry;
pub mod transport;
