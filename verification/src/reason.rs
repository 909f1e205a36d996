//! Reason codes of the unwinder ABI.

use vstd::prelude::*;

verus! {

/// What an unwinder entry point or a personality routine reports.
#[derive(Clone, Copy, Debug, PartialEq, Eq, Structural)]
pub enum ReasonCode {
    NoReason,
    ForeignExceptionCaught,
    FatalPhase2Error,
    FatalPhase1Error,
    NormalStop,
    EndOfStack,
    HandlerFound,
    InstallContext,
    ContinueUnwind,
    /// Used by the ARM EHABI only.
    Failure,
}

impl ReasonCode {
    /// The number that the ABI assigns to a reason code.
    pub open spec fn spec_code(self) -> u32 {
        match self {
            ReasonCode::NoReason => 0,
            ReasonCode::ForeignExceptionCaught => 1,
            ReasonCode::FatalPhase2Error => 2,
            ReasonCode::FatalPhase1Error => 3,
            ReasonCode::NormalStop => 4,
            ReasonCode::EndOfStack => 5,
            ReasonCode::HandlerFound => 6,
            ReasonCode::InstallContext => 7,
            ReasonCode::ContinueUnwind => 8,
            ReasonCode::Failure => 9,
        }
    }

    /// The reason code as the number that a failed raise hands back.
    pub fn code(self) -> (n: u32)
        ensures
            n == self.spec_code(),
            n <= 9,
    {
        match self {
            ReasonCode::NoReason => 0,
            ReasonCode::ForeignExceptionCaught => 1,
            ReasonCode::FatalPhase2Error => 2,
            ReasonCode::FatalPhase1Error => 3,
            ReasonCode::NormalStop => 4,
            ReasonCode::EndOfStack => 5,
            ReasonCode::HandlerFound => 6,
            ReasonCode::InstallContext => 7,
            ReasonCode::ContinueUnwind => 8,
            ReasonCode::Failure => 9,
        }
    }

    /// The reason code that a number stands for, if it stands for one.
    pub fn from_code(n: u32) -> (reason: Option<ReasonCode>)
        ensures
            reason is Some <==> n <= 9,
            reason matches Some(r) ==> r.spec_code() == n,
    {
        match n {
            0 => Some(ReasonCode::NoReason),
            1 => Some(ReasonCode::ForeignExceptionCaught),
            2 => Some(ReasonCode::FatalPhase2Error),
            3 => Some(ReasonCode::FatalPhase1Error),
            4 => Some(ReasonCode::NormalStop),
            5 => Some(ReasonCode::EndOfStack),
            6 => Some(ReasonCode::HandlerFound),
            7 => Some(ReasonCode::InstallContext),
            8 => Some(ReasonCode::ContinueUnwind),
            9 => Some(ReasonCode::Failure),
            _ => None,
        }
    }

    /// A reason code that ends the process: the unwinder cannot go on after
    /// it, and a raise that hands it back has failed for good.
    pub open spec fn is_fatal(self) -> bool {
        self == ReasonCode::FatalPhase1Error || self == ReasonCode::FatalPhase2Error
    }
}

/// Different reason codes have different numbers.
pub proof fn lemma_code_injective(a: ReasonCode, b: ReasonCode)
    requires
        a.spec_code() == b.spec_code(),
    ensures
        a == b,
{
}

} // verus!
