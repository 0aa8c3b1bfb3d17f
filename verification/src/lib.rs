//! A protocol-transparent gateway resolution and module lifecycle runtime.
//!
//! Independently built service modules call each other's capabilities without
//! knowing, at the call site, whether the callee lives in the same process or
//! behind a remote transport.  The crate provides:
//!
//! - opaque, comparable identifiers for modules and services, and a closed
//!   enumeration of transport preferences ([`protocol::Protocol`]);
//! - a capability registry mapping a module identifier to its descriptor,
//!   consumed once by the runtime in registration order ([`registry`]);
//! - a direct-closure registry of locally satisfiable modules ([`direct`]);
//! - a service connector that resolves a (module, service, preference) triple
//!   to a direct handler or a remote connection ([`connector`]);
//! - a gateway factory, generic over the handler type, that turns a resolution
//!   into a uniformly typed [`gateway::ServiceGateway`];
//! - a handlers registrar that reports partial registration failure instead of
//!   swallowing it ([`registrar`]);
//! - a module runtime that sequences startup and ordered shutdown as an
//!   explicit state machine ([`runtime`]);
//! - one complete service built on the core: the echo contract, its server
//!   module, its gateway provider and its client module ([`echo`],
//!   [`echo_client`]).
//!
//! Wire transports, the remote service-registry backend, serialization and
//! process bootstrapping are external collaborators: the crate models the data
//! it needs from them (registry snapshots, connection descriptors, outcome
//! flags) and leaves the byte-level work to its embedder.

pub mod connector;
pub mod direct;
pub mod echo;
pub mod echo_client;
pub mod errors;
pub mod gateway;
pub mod ids;
pub mod protocol;
pub mod registrar;
pub mod registry;
pub mod remote;
pub mod runtime;
