//! A refresh-and-serve cache for a credential-expiry metrics page.
//!
//! A single cache actor owns the current metrics text. On a timer it
//! fetches the application records from the remote directory, renders
//! them into the exposition format, and replaces the snapshot wholesale;
//! read requests arriving over a channel are answered with a copy of the
//! current snapshot. The rendering, the actor's transition rules, the
//! request gateway's response mapping, the configuration rules and the
//! shutdown decision live here, verified; the HTTP listener, the remote
//! calls and the channels themselves are ordinary plumbing around them.

pub mod actor;
pub mod config;
pub mod endpoints;
pub mod gateway;
pub mod records;
pub mod render;
pub mod shutdown;
pub mod text;
