//! Configuration-synthesis core of a gateway control plane.
//!
//! The export engine ([`service`]) compiles a `Service` descriptor into an
//! ordered, uniquely-keyed bundle of proxy resources ([`resources`]): the
//! routing cluster, the listener with its HTTP filter chain, and auxiliary
//! clusters for the identity and billing backends ([`threescale`]). The
//! mapping-rule engine ([`config`]) is the request-time half: it holds the
//! active `Service` configuration, imported from the serialized descriptor
//! ([`parse`]), and classifies inbound requests against its usage-mapping
//! rules. [`json`] is the compact wire form shared by both halves,
//! [`digest`] the content hash that guards remotely fetched plugin code,
//! and [`text`] the character-level helpers under all of it.

pub mod config;
pub mod digest;
pub mod json;
pub mod parse;
pub mod resources;
pub mod service;
pub mod text;
pub mod threescale;
