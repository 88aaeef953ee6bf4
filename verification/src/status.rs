//! The tri-state eligibility verdict and its coercion to a boolean.

use vstd::prelude::*;
use vstd::std_specs::convert::FromSpecImpl;

verus! {

/// A boolean with an explicit "not yet determined" state.
#[derive(Clone, Copy, Debug, PartialEq, Eq, Structural)]
pub enum EligibleStatus {
    Eligible,
    Ineligible,
    Unknown,
}

impl EligibleStatus {
    /// The boolean a verdict stands for: only `Eligible` counts as `true`.
    pub open spec fn as_bool(self) -> bool {
        self is Eligible
    }

    /// The verdict that a boolean stands for; never `Unknown`.
    pub open spec fn of_bool(value: bool) -> EligibleStatus {
        if value {
            EligibleStatus::Eligible
        } else {
            EligibleStatus::Ineligible
        }
    }

    /// The name of the variant, as text.
    pub open spec fn label(self) -> Seq<char> {
        match self {
            EligibleStatus::Eligible => "Eligible"@,
            EligibleStatus::Ineligible => "Ineligible"@,
            EligibleStatus::Unknown => "Unknown"@,
        }
    }

    /// Renders the verdict as the name of its variant.
    pub fn name(&self) -> (text: String)
        ensures
            text@ == self.label(),
    {
        match self {
            EligibleStatus::Eligible => "Eligible".to_owned(),
            EligibleStatus::Ineligible => "Ineligible".to_owned(),
            EligibleStatus::Unknown => "Unknown".to_owned(),
        }
    }
}

impl From<EligibleStatus> for bool {
    fn from(value: EligibleStatus) -> (coerced: bool) {
        match value {
            EligibleStatus::Eligible => true,
            _ => false,
        }
    }
}

impl FromSpecImpl<EligibleStatus> for bool {
    open spec fn obeys_from_spec() -> bool {
        true
    }

    open spec fn from_spec(value: EligibleStatus) -> bool {
        value.as_bool()
    }
}

impl From<bool> for EligibleStatus {
    fn from(value: bool) -> (status: EligibleStatus) {
        match value {
            true => EligibleStatus::Eligible,
            false => EligibleStatus::Ineligible,
        }
    }
}

impl FromSpecImpl<bool> for EligibleStatus {
    open spec fn obeys_from_spec() -> bool {
        true
    }

    open spec fn from_spec(value: bool) -> EligibleStatus {
        EligibleStatus::of_bool(value)
    }
}

} // verus!
