//! The structured rule-violation report produced by the validate capability.

use vstd::prelude::*;

verus! {

/// One failed semantic constraint: a rule code plus an optional
/// human-readable message.  An absent message is a valid state of its own
/// and renders as JSON `null`, never as an empty string.
pub struct RuleViolation {
    pub code: String,
    pub msg: Option<String>,
}

/// Every rule one field violated, in the order the rules were evaluated.
pub struct FieldErrors {
    pub field: String,
    pub errors: Vec<RuleViolation>,
}

/// A per-field rule-violation report: one entry per failing field, each
/// entry listing all rules that field violated.
pub struct ValidationReport {
    pub fields: Vec<FieldErrors>,
}

impl ValidationReport {
    /// A well-formed report names each failing field at most once and
    /// records at least one violated rule for every field it names.
    pub open spec fn wf(self) -> bool {
        &&& forall|i: int, j: int|
            0 <= i < j < self.fields@.len()
                ==> (#[trigger] self.fields@[i]).field@ != (#[trigger] self.fields@[j]).field@
        &&& forall|i: int|
            0 <= i < self.fields@.len() ==> (#[trigger] self.fields@[i]).errors@.len() >= 1
    }
}

} // verus!
