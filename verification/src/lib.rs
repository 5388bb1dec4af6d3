//! A typed opaque handle that embeds a native value in a host-managed object.
//!
//! The host runtime is modelled by plain data: [`robj::Robj`] is a host value,
//! [`host::Host`] is the collector's store of embedded values, and
//! [`handle::ExternalPtr`] is the typed wrapper whose tag check guards every
//! re-entry from an untyped host value.

pub mod robj;
pub mod error;
pub mod host;
pub mod handle;
pub mod laws;
