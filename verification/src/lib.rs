//! Dynamic-plugin bridge for a compiler toolchain.
//!
//! The host compiler loads procedural-macro plugins that are distributed as
//! precompiled, dynamically loadable modules, and invokes their
//! code-transformation entry points in process.  This crate holds the part of
//! that bridge that can be reasoned about: the host-native data model for
//! token streams and macro results, the all-or-nothing entry-point resolver,
//! the stable wire-format conversions, and the call protocol that pairs every
//! wire allocation with exactly one release on the correct side of the
//! boundary.
//!
//! The raw foreign calls themselves (opening the module, looking up symbols,
//! invoking the resolved entry points) are performed by an unverified driver
//! that follows the protocol exposed here.

pub mod error;
pub mod instance;
pub mod outcome;
pub mod protocol;
pub mod resolve;
pub mod token;
pub mod wire;

use vstd::prelude::*;

verus! {

/// The build profile under which plugin modules are compiled and located.
pub const PROC_MACRO_BUILD_PROFILE: &'static str = "release";

} // verus!
