//! delila: the request-dispatch core of a local desktop chess database
//! backend, together with the bit-packed material-signature codec used
//! for material-search pruning.
//!
//! A client talks to the backend over a persistent connection, issuing
//! named commands with JSON arguments and receiving progress events and
//! a terminal result. The modules here hold the verified logic: the
//! dispatch table that routes command envelopes to typed handlers, the
//! per-request context that records outbound frames, the connection
//! actor's bookkeeping of in-flight work, and the material-signature
//! codec. The surrounding process (socket, worker pool, logging,
//! storage) lives outside the library and talks to it in plain values.

pub mod actor;
pub mod app_info;
pub mod common;
pub mod errors;
pub mod matsig;
pub mod models;
pub mod pathsettings;
pub mod tasks;
pub mod wire;
