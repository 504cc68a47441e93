//! Self-certifying peer authentication for QUIC transports.
//!
//! A peer's long-term identity key vouches for the short-lived key of its TLS certificate
//! through a signed binding carried in a certificate extension. This crate holds the format
//! of that binding, the rules by which a presented certificate is accepted, and the
//! decisions of the transport that runs on top: which addresses may be dialed or announced,
//! and what each poll of a connection or substream yields. It also holds the two messages
//! of the legacy handshake and their form on the wire.
//!
//! Keys, signatures, certificates and layered addresses are the work of other crates. What
//! those crates compute is not proved here: each result that a rule of this crate depends
//! on has a name, and the rules are stated and proved over those names.

pub mod address;
pub mod binder;
pub mod binding;
pub mod certificate;
pub mod config;
pub mod der;
pub mod error;
pub mod identity;
pub mod muxer;
pub mod structs_proto;
pub mod transport;
pub mod verification;
pub mod wire;
