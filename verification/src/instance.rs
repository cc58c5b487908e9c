//! A loaded procedural-macro plugin.
//!
//! An instance owns one loaded module handle and the entry points resolved
//! from it, as a unit: the resolved handles borrow their validity from the
//! module, so they live and die together.  Construction is all-or-nothing:
//! an instance exists only when the module was opened and every required
//! entry point was found.
//!
//! The instance is generic over the module-handle and entry-point handle
//! types, which only the unverified driver can produce; the decision of
//! whether a load succeeds, and with which error it fails, is made here.
//! The two host-facing operations on a loaded instance — code expansion
//! and auxiliary-data propagation — are each one run of the corresponding
//! flow in `crate::protocol`, with the wire conversions of `crate::wire`
//! performed at the steps the flow prescribes.

use vstd::prelude::*;
use crate::error::LoadError;
use crate::resolve::EntryPoints;
use crate::resolve::resolve_entry_points;

verus! {

/// Representation of a single procedural macro: one loaded module and the
/// entry points resolved from it, labelled with the identity of the package
/// that provides it.
pub struct ProcMacroInstance<M, E, F, A> {
    package_id: String,
    module: M,
    vtable: EntryPoints<E, F, A>,
}

impl<M, E, F, A> ProcMacroInstance<M, E, F, A> {
    /// The identity of the package whose plugin this is.
    pub closed spec fn spec_package_id(&self) -> Seq<char> {
        self.package_id@
    }

    /// The resolved entry points of this instance.
    pub closed spec fn spec_vtable(&self) -> &EntryPoints<E, F, A> {
        &self.vtable
    }

    /// The module handle this instance owns.
    pub closed spec fn spec_module(&self) -> &M {
        &self.module
    }

    /// Build an instance for the package from an opened module and the
    /// outcome of the three entry-point lookups.  Succeeds exactly when all
    /// three entry points were found; fails naming the first missing one,
    /// and no instance exists in that case.
    pub fn try_new(
        package_id: String,
        module: M,
        expand: Option<E>,
        free_result: Option<F>,
        aux_data_callback: Option<A>,
    ) -> (r: Result<Self, LoadError>)
        ensures
            r is Ok <==> (expand is Some && free_result is Some && aux_data_callback is Some),
            r matches Ok(inst) ==> inst.spec_package_id() == package_id@ && expand == Some(
                inst.spec_vtable().expand,
            ) && free_result == Some(inst.spec_vtable().free_result) && aux_data_callback
                == Some(inst.spec_vtable().aux_data_callback),
            r matches Err(e) ==> (e matches LoadError::MissingSymbol { symbol } && (
            expand is None ==> symbol == crate::resolve::EntryPoint::Expand) && (expand is Some
                && free_result is None ==> symbol == crate::resolve::EntryPoint::FreeResult) && (
            expand is Some && free_result is Some && aux_data_callback is None ==> symbol
                == crate::resolve::EntryPoint::AuxDataCallback)),
    {
        let vtable = match resolve_entry_points(expand, free_result, aux_data_callback) {
            Ok(vtable) => vtable,
            Err(e) => {
                return Err(e);
            },
        };
        Ok(ProcMacroInstance { package_id, module, vtable })
    }

    /// The identity of the package whose plugin this is.
    pub fn package_id(&self) -> (r: &str)
        ensures
            r@ == self.spec_package_id(),
    {
        self.package_id.as_str()
    }

    /// The attributes this plugin declares: the package's own name.
    pub fn declared_attributes(&self) -> (r: Vec<String>)
        ensures
            r@.len() == 1,
            r@[0]@ == self.spec_package_id(),
    {
        let mut attrs: Vec<String> = Vec::new();
        attrs.push(self.package_id.clone());
        attrs
    }

    /// Borrow the resolved entry points, for the driver to perform the
    /// foreign calls the protocol prescribes.
    pub fn vtable(&self) -> (r: &EntryPoints<E, F, A>)
        ensures
            r == self.spec_vtable(),
    {
        &self.vtable
    }

    /// Borrow the module handle.  The handle stays owned by the instance:
    /// the resolved entry points are valid only while it lives.
    pub fn module(&self) -> (r: &M)
        ensures
            r == self.spec_module(),
    {
        &self.module
    }
}

} // verus!
