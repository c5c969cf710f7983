use vstd::prelude::*;

verus! {

/// Why an operation refused to change a record.
#[derive(Debug, Clone, Copy, PartialEq, Eq, Structural)]
pub enum ErrorCode {
    /// The amount offered is smaller than the cap of the investor's current cycle.
    InvestmentBelowMinimum,
    /// A computed amount or counter does not fit in its field.
    Overflow,
}

impl ErrorCode {
    /// The text shown to a caller for this error.
    pub open spec fn message_of(self) -> Seq<char> {
        match self {
            ErrorCode::InvestmentBelowMinimum =>
                "The investment amount is below the minimum required for the current cycle."@,
            ErrorCode::Overflow => "An amount exceeds the representable range."@,
        }
    }

    /// Returns the text for this error.
    pub fn message(&self) -> (s: &'static str)
        ensures
            s@ == self.message_of(),
    {
        match self {
            ErrorCode::InvestmentBelowMinimum =>
                "The investment amount is below the minimum required for the current cycle.",
            ErrorCode::Overflow => "An amount exceeds the representable range.",
        }
    }
}

} // verus!
