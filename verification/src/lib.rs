//! Typed read-only accessors over a host-managed key/value object space.
//!
//! A smart contract reads its sandboxed state through proxies: cheap,
//! copyable descriptors naming one slot, one homogeneous array, or one
//! nested map inside the host's object space. The host itself is modelled
//! here by [`host::ScHostState`], an explicit in-memory object space that
//! supplies the four bridge operations every proxy is built on: existence
//! test, typed byte fetch, nested-object resolution and length query.

pub mod codec;
pub mod hashtypes;
pub mod host;
pub mod immutable;
pub mod keys;
