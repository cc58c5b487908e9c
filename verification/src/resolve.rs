//! Entry-point resolution (protocol version 0).
//!
//! A compliant plugin module exports exactly three named entry points:
//! `expand`, `free_result` and `aux_data_callback`.  Resolution is
//! all-or-nothing: each name is looked up in that fixed order, and the first
//! absent one fails the whole load, naming the missing symbol.  No partial
//! set is ever produced.
//!
//! The raw symbol lookup itself is a foreign operation the driver performs;
//! this module makes the decision.  The resolver is generic over the handle
//! types, so a resolved set can only be built from one found handle per
//! entry point.

use vstd::prelude::*;
use crate::error::LoadError;

verus! {

/// The entry points a plugin module must export (protocol version 0).
#[derive(Clone, Copy, PartialEq, Eq, Structural, Debug)]
pub enum EntryPoint {
    /// Transforms a wire token stream into a wire macro result.
    Expand,
    /// Releases a macro result the plugin allocated for an earlier
    /// expansion.
    FreeResult,
    /// Receives auxiliary data collected by the host and returns an owned
    /// wire slice the host must reclaim.
    AuxDataCallback,
}

impl EntryPoint {
    /// The exact name under which the module must export this entry point.
    pub open spec fn spec_symbol_name(&self) -> Seq<char> {
        match self {
            EntryPoint::Expand => "expand"@,
            EntryPoint::FreeResult => "free_result"@,
            EntryPoint::AuxDataCallback => "aux_data_callback"@,
        }
    }

    /// The exact name under which the module must export this entry point.
    pub fn symbol_name(&self) -> (r: &'static str)
        ensures
            r@ == self.spec_symbol_name(),
    {
        match self {
            EntryPoint::Expand => "expand",
            EntryPoint::FreeResult => "free_result",
            EntryPoint::AuxDataCallback => "aux_data_callback",
        }
    }

    /// The message that accompanies a load failure naming this entry point.
    pub open spec fn spec_context_message(&self) -> Seq<char> {
        match self {
            EntryPoint::Expand => "failed to load expand function for procedural macro"@,
            EntryPoint::FreeResult => "failed to load free_result function for procedural macro"@,
            EntryPoint::AuxDataCallback => "failed to load aux_data_callback function for procedural macro"@,
        }
    }

    /// The message that accompanies a load failure naming this entry point.
    pub fn context_message(&self) -> (r: &'static str)
        ensures
            r@ == self.spec_context_message(),
    {
        match self {
            EntryPoint::Expand => "failed to load expand function for procedural macro",
            EntryPoint::FreeResult => "failed to load free_result function for procedural macro",
            EntryPoint::AuxDataCallback => "failed to load aux_data_callback function for procedural macro",
        }
    }
}

/// The fixed order in which the entry points are looked up.
pub open spec fn spec_lookup_order() -> Seq<EntryPoint> {
    seq![EntryPoint::Expand, EntryPoint::FreeResult, EntryPoint::AuxDataCallback]
}

/// The fixed order in which the entry points are looked up.
pub fn lookup_order() -> (r: Vec<EntryPoint>)
    ensures
        r@ == spec_lookup_order(),
{
    let mut v: Vec<EntryPoint> = Vec::new();
    v.push(EntryPoint::Expand);
    v.push(EntryPoint::FreeResult);
    v.push(EntryPoint::AuxDataCallback);
    assert(v@ =~= spec_lookup_order());
    v
}

/// A populated entry-point set: one resolved handle per required entry
/// point.  A value of this type exists only when every lookup succeeded.
pub struct EntryPoints<E, F, A> {
    /// Handle for the `expand` entry point.
    pub expand: E,
    /// Handle for the `free_result` entry point.
    pub free_result: F,
    /// Handle for the `aux_data_callback` entry point.
    pub aux_data_callback: A,
}

/// Build the entry-point set from the outcome of the three lookups, or fail
/// on the first entry point that was not found, naming it.
///
/// Resolution is all-or-nothing: the result is `Ok` exactly when all three
/// handles are present, and an `Ok` set carries exactly the handles that
/// were found.
pub fn resolve_entry_points<E, F, A>(
    expand: Option<E>,
    free_result: Option<F>,
    aux_data_callback: Option<A>,
) -> (r: Result<EntryPoints<E, F, A>, LoadError>)
    ensures
        r is Ok <==> (expand is Some && free_result is Some && aux_data_callback is Some),
        r matches Ok(set) ==> expand == Some(set.expand) && free_result == Some(set.free_result)
            && aux_data_callback == Some(set.aux_data_callback),
        expand is None ==> (r matches Err(e) && e == (LoadError::MissingSymbol {
            symbol: EntryPoint::Expand,
        })),
        expand is Some && free_result is None ==> (r matches Err(e) && e
            == (LoadError::MissingSymbol { symbol: EntryPoint::FreeResult })),
        expand is Some && free_result is Some && aux_data_callback is None ==> (r matches Err(e)
            && e == (LoadError::MissingSymbol { symbol: EntryPoint::AuxDataCallback })),
{
    let expand = match expand {
        Some(handle) => handle,
        None => {
            return Err(LoadError::MissingSymbol { symbol: EntryPoint::Expand });
        },
    };
    let free_result = match free_result {
        Some(handle) => handle,
        None => {
            return Err(LoadError::MissingSymbol { symbol: EntryPoint::FreeResult });
        },
    };
    let aux_data_callback = match aux_data_callback {
        Some(handle) => handle,
        None => {
            return Err(LoadError::MissingSymbol { symbol: EntryPoint::AuxDataCallback });
        },
    };
    Ok(EntryPoints { expand, free_result, aux_data_callback })
}

} // verus!
