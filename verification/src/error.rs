//! Load-time failures of the plugin bridge.
//!
//! Two things can go wrong while bringing a plugin up: the module itself
//! cannot be opened, or the module opens but lacks one of the required entry
//! points.  Foreign-call failures after a successful load are not modelled as
//! errors at this layer.

use vstd::prelude::*;
use crate::resolve::EntryPoint;

verus! {

/// Why a plugin could not be loaded.
pub enum LoadError {
    /// The module could not be opened (missing file, wrong format,
    /// unresolved native dependencies).  Carries the platform loader's
    /// message.
    Open { message: String },
    /// The module was opened but one of the required entry points is absent.
    MissingSymbol { symbol: EntryPoint },
}

impl LoadError {
    /// Whether this failure names a missing entry point, as opposed to a
    /// module that could not be opened at all.
    pub fn is_missing_symbol(&self) -> (r: bool)
        ensures
            r == (self is MissingSymbol),
    {
        match self {
            LoadError::MissingSymbol { .. } => true,
            LoadError::Open { .. } => false,
        }
    }

    /// The entry point this failure names, if it names one.
    pub fn missing_symbol(&self) -> (r: Option<EntryPoint>)
        ensures
            self matches LoadError::MissingSymbol { symbol } ==> r == Some(*symbol),
            self is Open ==> r is None,
    {
        match self {
            LoadError::MissingSymbol { symbol } => Some(*symbol),
            LoadError::Open { .. } => None,
        }
    }

    /// A human-readable account of the failure: the loader's own message for
    /// an open failure, and a fixed message naming the entry point for a
    /// missing symbol.
    pub fn message(&self) -> (r: &str)
        ensures
            self matches LoadError::Open { message } ==> r@ == message@,
            self matches LoadError::MissingSymbol { symbol } ==> r@
                == symbol.spec_context_message(),
    {
        match self {
            LoadError::Open { message } => message.as_str(),
            LoadError::MissingSymbol { symbol } => symbol.context_message(),
        }
    }
}

} // verus!
