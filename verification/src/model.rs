//! Model provenance and validation status.
//!
//! Every calculator describes which published model it implements, where
//! the expression comes from, the range over which it applies, and how much
//! validation evidence exists. "Matches Saturn" is a compatibility
//! statement, not an accuracy statement; the two are kept separate here.

use vstd::prelude::*;

verus! {

/// How much evidence backs a calculator.
#[derive(Debug, Clone, Copy, PartialEq, Eq, Structural)]
pub enum ModelStatus {
    /// Exact relation or a published closed form checked against an
    /// independent evaluation inside its stated range.
    Validated,
    /// Published approximation kept for compatibility with Saturn PCB
    /// Toolkit or IPC-2141; checked only against the source's own examples.
    Compatibility,
    /// Heuristic or partially reconstructed model; results are estimates.
    Experimental,
}

/// The lower-case label of a status.
pub open spec fn status_label(status: ModelStatus) -> Seq<char> {
    match status {
        ModelStatus::Validated => "validated"@,
        ModelStatus::Compatibility => "compatibility"@,
        ModelStatus::Experimental => "experimental"@,
    }
}

impl ModelStatus {
    /// Lower-case label of the status, as printed in caveats.
    pub fn label(self) -> (label: &'static str)
        ensures
            label@ == status_label(self),
    {
        match self {
            ModelStatus::Validated => "validated",
            ModelStatus::Compatibility => "compatibility",
            ModelStatus::Experimental => "experimental",
        }
    }

    /// Whether text output must print the model caveat: every model that
    /// is not validated prints its status, source and range, so that an
    /// estimate is never mistaken for a validated result.
    pub fn needs_caveat(self) -> (needed: bool)
        ensures
            needed <==> self != ModelStatus::Validated,
    {
        match self {
            ModelStatus::Validated => false,
            ModelStatus::Compatibility | ModelStatus::Experimental => true,
        }
    }
}

/// Static description of a calculator's model.
#[derive(Debug, Clone, Copy, PartialEq, Eq)]
pub struct ModelInfo {
    /// Human-readable model name.
    pub name: &'static str,
    /// Validation status.
    pub status: ModelStatus,
    /// Primary reference for the expressions.
    pub reference: &'static str,
    /// Range over which the model applies, and the expected accuracy there.
    pub validity: &'static str,
}

/// The one-line caveat of a model:
/// `Model: <name> [<status>] — <reference>. Range: <validity>`.
pub open spec fn caveat_text(info: ModelInfo) -> Seq<char> {
    "Model: "@ + info.name@ + " ["@ + status_label(info.status) + "] — "@ + info.reference@
        + ". Range: "@ + info.validity@
}

impl ModelInfo {
    /// One-line caveat suitable for CLI output.
    pub fn caveat(&self) -> (text: String)
        ensures
            text@ == caveat_text(*self),
    {
        let mut text = String::from_str("Model: ");
        text.append(self.name);
        text.append(" [");
        text.append(self.status.label());
        text.append("] — ");
        text.append(self.reference);
        text.append(". Range: ");
        text.append(self.validity);
        text
    }
}

} // verus!
