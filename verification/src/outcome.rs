//! Host-native representation of a macro expansion result.
//!
//! This is the value an expansion hands back to the host once the wire
//! result has been read: the transformed token stream, optional auxiliary
//! data, diagnostics, and full-path markers.  The driver builds it while it
//! reads the callee-allocated wire result, before that wire value is given
//! back to the plugin's own free routine.

use vstd::prelude::*;
use crate::token::TokenText;

verus! {

/// How a diagnostic influences the compilation.
#[derive(Clone, Copy, PartialEq, Eq, Structural, Debug)]
pub enum Severity {
    /// The expansion failed; compilation of the owning package fails.
    Error,
    /// A suggestion shown to the user; compilation continues.
    Warning,
}

/// A message a plugin addressed to the user.
pub struct DiagnosticNote {
    /// Human-readable explanation; never parsed by the compiler.
    pub message: String,
    /// How the message influences the compilation.
    pub severity: Severity,
}

/// The outcome of one code transformation.
pub struct MacroOutcome {
    /// The transformed token stream.
    pub token: TokenText,
    /// Opaque metadata the plugin attached to the result, to be handed back
    /// through the auxiliary-data callback later.
    pub aux_data: Option<Vec<u8>>,
    /// Messages the plugin addressed to the user.
    pub diagnostics: Vec<DiagnosticNote>,
    /// Full-path markers to be resolved by the host.
    pub full_path_markers: Vec<String>,
}

impl MacroOutcome {
    /// An outcome that carries only a token stream.
    pub fn new(token: TokenText) -> (r: MacroOutcome)
        ensures
            r.token == token,
            r.aux_data is None,
            r.diagnostics@.len() == 0,
            r.full_path_markers@.len() == 0,
    {
        MacroOutcome {
            token,
            aux_data: None,
            diagnostics: Vec::new(),
            full_path_markers: Vec::new(),
        }
    }

    /// Attach auxiliary data to the outcome.
    pub fn with_aux_data(self, bytes: Vec<u8>) -> (r: MacroOutcome)
        ensures
            r.token == self.token,
            r.aux_data == Some(bytes),
            r.diagnostics == self.diagnostics,
            r.full_path_markers == self.full_path_markers,
    {
        MacroOutcome { aux_data: Some(bytes), ..self }
    }

    /// Whether any diagnostic of the outcome fails the compilation.
    pub fn has_error(&self) -> (r: bool)
        ensures
            r == exists|i: int|
                0 <= i < self.diagnostics@.len() && self.diagnostics@[i].severity
                    == Severity::Error,
    {
        let mut i: usize = 0;
        while i < self.diagnostics.len()
            invariant
                0 <= i <= self.diagnostics@.len(),
                forall|j: int| 0 <= j < i ==> self.diagnostics@[j].severity != Severity::Error,
            decreases self.diagnostics@.len() - i,
        {
            if self.diagnostics[i].severity == Severity::Error {
                return true;
            }
            i = i + 1;
        }
        false
    }
}

} // verus!
