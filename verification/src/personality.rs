//! The personality routine: what to tell the unwinder about one frame.
//!
//! The unwinder walks the stack twice. In the search phase it asks each frame
//! whether it catches the exception, and nothing is changed. Once a handler
//! frame is found, the cleanup phase walks the same frames again and enters
//! each landing pad on the way, the handler's last.

use crate::eh::{spec_landing_pad, EHAction};
use crate::reason::ReasonCode;
use crate::registers::{spec_unwind_data_reg, unwind_data_reg, Arch, RegisterPair};
use sgx_types::{c_int, uintptr_t};
use vstd::prelude::*;

verus! {

/// The only version of the unwinder protocol that the routine speaks.
pub const PERSONALITY_VERSION: c_int = 1;

/// The bit of the action flags that is set during the search phase.
pub const UA_SEARCH_PHASE: c_int = 1;

/// The selector handed to every landing pad: there is one class of
/// exception, so there is nothing to select.
pub const NO_SELECTOR: uintptr_t = 0;

/// The two passes of the protocol.
#[derive(Clone, Copy, Debug, PartialEq, Eq, Structural)]
pub enum Phase {
    Search,
    Cleanup,
}

/// A transfer of control into a landing pad: two register writes and the new
/// instruction pointer.
#[derive(Clone, Copy, Debug, PartialEq, Eq, Structural)]
pub struct InstallContext {
    /// The register that receives `exception_ptr`.
    pub exception_reg: c_int,
    /// The address of the exception header.
    pub exception_ptr: uintptr_t,
    /// The register that receives `selector`.
    pub selector_reg: c_int,
    /// Always `NO_SELECTOR`.
    pub selector: uintptr_t,
    /// The address at which the frame resumes.
    pub landing_pad: uintptr_t,
}

/// What the routine decides for one frame in one phase.
#[derive(Clone, Copy, Debug, PartialEq, Eq, Structural)]
pub enum Verdict {
    /// Go on with the caller's frame.
    ContinueUnwind,
    /// This frame catches; the cleanup phase may begin.
    HandlerFound,
    /// Enter a landing pad of this frame.
    Install(InstallContext),
    /// The search cannot go on.
    FatalPhase1Error,
    /// The cleanup cannot go on.
    FatalPhase2Error,
}

impl Verdict {
    /// The reason code under which the unwinder learns of a verdict.
    pub open spec fn spec_reason(self) -> ReasonCode {
        match self {
            Verdict::ContinueUnwind => ReasonCode::ContinueUnwind,
            Verdict::HandlerFound => ReasonCode::HandlerFound,
            Verdict::Install(_) => ReasonCode::InstallContext,
            Verdict::FatalPhase1Error => ReasonCode::FatalPhase1Error,
            Verdict::FatalPhase2Error => ReasonCode::FatalPhase2Error,
        }
    }

    /// The reason code to report for this verdict.
    pub fn reason(&self) -> (code: ReasonCode)
        ensures
            code == self.spec_reason(),
    {
        match self {
            Verdict::ContinueUnwind => ReasonCode::ContinueUnwind,
            Verdict::HandlerFound => ReasonCode::HandlerFound,
            Verdict::Install(_) => ReasonCode::InstallContext,
            Verdict::FatalPhase1Error => ReasonCode::FatalPhase1Error,
            Verdict::FatalPhase2Error => ReasonCode::FatalPhase2Error,
        }
    }
}

/// The phase that a set of action flags stands for.
pub open spec fn spec_phase(actions: c_int) -> Phase {
    if actions & UA_SEARCH_PHASE != 0 {
        Phase::Search
    } else {
        Phase::Cleanup
    }
}

/// Reads the phase off the action flags.
pub fn phase_of(actions: c_int) -> (phase: Phase)
    ensures
        phase == spec_phase(actions),
{
    if actions & UA_SEARCH_PHASE != 0 {
        Phase::Search
    } else {
        Phase::Cleanup
    }
}

/// The action that counts for a frame: a frame whose action could not be
/// resolved is treated as one that forbids unwinding.
pub open spec fn effective_action(resolved: Result<EHAction, ()>) -> EHAction {
    match resolved {
        Ok(action) => action,
        Err(_) => EHAction::Terminate,
    }
}

/// The transfer into the landing pad at `landing_pad`, for the exception at
/// `exception_ptr`, under the register convention `regs`.
pub open spec fn transfer(regs: RegisterPair, exception_ptr: uintptr_t, landing_pad: uintptr_t) -> InstallContext {
    InstallContext {
        exception_reg: regs.primary,
        exception_ptr,
        selector_reg: regs.secondary,
        selector: NO_SELECTOR,
        landing_pad,
    }
}

/// The verdict of the search phase.
pub open spec fn search_verdict(action: EHAction) -> Verdict {
    match action {
        EHAction::NoAction | EHAction::Cleanup(_) => Verdict::ContinueUnwind,
        EHAction::Catch(_) => Verdict::HandlerFound,
        EHAction::Terminate => Verdict::FatalPhase1Error,
    }
}

/// The verdict of the cleanup phase.
pub open spec fn cleanup_verdict(action: EHAction, exception_ptr: uintptr_t, regs: RegisterPair) -> Verdict {
    match action {
        EHAction::NoAction => Verdict::ContinueUnwind,
        EHAction::Cleanup(lpad) | EHAction::Catch(lpad) => Verdict::Install(
            transfer(regs, exception_ptr, lpad),
        ),
        EHAction::Terminate => Verdict::FatalPhase2Error,
    }
}

/// The verdict of the routine.
pub open spec fn personality_verdict(
    version: c_int,
    actions: c_int,
    exception_ptr: uintptr_t,
    resolved: Result<EHAction, ()>,
    regs: RegisterPair,
) -> Verdict {
    if version != PERSONALITY_VERSION {
        Verdict::FatalPhase1Error
    } else {
        match spec_phase(actions) {
            Phase::Search => search_verdict(effective_action(resolved)),
            Phase::Cleanup => cleanup_verdict(effective_action(resolved), exception_ptr, regs),
        }
    }
}

/// Whether the routine speaks protocol version `version`. Where it does not,
/// the frame must not be read at all, and the verdict does not depend on it.
pub fn version_supported(version: c_int) -> (supported: bool)
    ensures
        supported == (version == PERSONALITY_VERSION),
{
    version == PERSONALITY_VERSION
}

/// Decides what to tell the unwinder about one frame.
///
/// `actions` are the action flags of the call, `exception_ptr` is the address
/// of the exception header, and `resolved` is the action found for the frame,
/// or `Err` where none could be found. The class tag of the exception is
/// taken but not acted upon: an exception of another runtime is treated like
/// one of this runtime.
pub fn rust_eh_personality(
    version: c_int,
    actions: c_int,
    exception_class: u64,
    exception_ptr: uintptr_t,
    resolved: Result<EHAction, ()>,
    arch: Arch,
) -> (verdict: Verdict)
    ensures
        verdict == personality_verdict(
            version,
            actions,
            exception_ptr,
            resolved,
            spec_unwind_data_reg(arch),
        ),
{
    if !version_supported(version) {
        return Verdict::FatalPhase1Error;
    }
    let eh_action = match resolved {
        Ok(action) => action,
        Err(_) => EHAction::Terminate,
    };
    match phase_of(actions) {
        Phase::Search => match eh_action {
            EHAction::NoAction | EHAction::Cleanup(_) => Verdict::ContinueUnwind,
            EHAction::Catch(_) => Verdict::HandlerFound,
            EHAction::Terminate => Verdict::FatalPhase1Error,
        },
        Phase::Cleanup => match eh_action {
            EHAction::NoAction => Verdict::ContinueUnwind,
            EHAction::Cleanup(lpad) | EHAction::Catch(lpad) => {
                let regs = unwind_data_reg(arch);
                Verdict::Install(
                    InstallContext {
                        exception_reg: regs.primary,
                        exception_ptr,
                        selector_reg: regs.secondary,
                        selector: NO_SELECTOR,
                        landing_pad: lpad,
                    },
                )
            },
            EHAction::Terminate => Verdict::FatalPhase2Error,
        },
    }
}

/// The search phase is the one whose action flags are odd: the search bit is
/// the lowest one.
pub proof fn lemma_search_phase_is_low_bit(actions: c_int)
    ensures
        spec_phase(actions) == Phase::Search <==> actions % 2 != 0,
{
    assert((actions & 1 != 0) <==> actions % 2 != 0) by (bit_vector);
}

/// An unwinder that speaks another version of the protocol is told of a fatal
/// phase-1 error, whatever the phase and whatever the frame holds.
pub proof fn lemma_version_mismatch_is_fatal(
    version: c_int,
    actions: c_int,
    exception_ptr: uintptr_t,
    resolved: Result<EHAction, ()>,
    regs: RegisterPair,
)
    requires
        version != PERSONALITY_VERSION,
    ensures
        personality_verdict(version, actions, exception_ptr, resolved, regs)
            == Verdict::FatalPhase1Error,
{
}

/// A frame whose action could not be resolved is judged like a frame that
/// forbids unwinding: fatally, with the error of the phase at hand.
pub proof fn lemma_unresolved_is_terminate(
    version: c_int,
    actions: c_int,
    exception_ptr: uintptr_t,
    regs: RegisterPair,
)
    ensures
        personality_verdict(version, actions, exception_ptr, Err(()), regs) == personality_verdict(
            version,
            actions,
            exception_ptr,
            Ok(EHAction::Terminate),
            regs,
        ),
        personality_verdict(version, actions, exception_ptr, Err(()), regs).spec_reason().is_fatal(),
        version == PERSONALITY_VERSION && spec_phase(actions) == Phase::Cleanup
            ==> personality_verdict(version, actions, exception_ptr, Err(()), regs)
            == Verdict::FatalPhase2Error,
{
}

/// The search phase finds a handler in a frame exactly when the frame
/// catches. On a stack without a catching frame no frame stops the search as
/// a handler.
pub proof fn lemma_handler_found_iff_catch(
    version: c_int,
    actions: c_int,
    exception_ptr: uintptr_t,
    resolved: Result<EHAction, ()>,
    regs: RegisterPair,
)
    ensures
        personality_verdict(version, actions, exception_ptr, resolved, regs)
            == Verdict::HandlerFound <==> version == PERSONALITY_VERSION && spec_phase(actions)
            == Phase::Search && effective_action(resolved) is Catch,
{
}

/// Control enters a landing pad in the cleanup phase only, and exactly when
/// the frame has cleanup or catch code. The transfer then goes to the frame's
/// landing pad, with the exception pointer in the primary register and the
/// empty selector in the secondary one.
pub proof fn lemma_install_iff_landing_pad(
    version: c_int,
    actions: c_int,
    exception_ptr: uintptr_t,
    resolved: Result<EHAction, ()>,
    regs: RegisterPair,
)
    ensures
        personality_verdict(version, actions, exception_ptr, resolved, regs) is Install <==> version
            == PERSONALITY_VERSION && spec_phase(actions) == Phase::Cleanup && spec_landing_pad(
            effective_action(resolved),
        ) is Some,
        personality_verdict(version, actions, exception_ptr, resolved, regs) matches Verdict::Install(
            t,
        ) ==> {
            &&& Some(t.landing_pad) == spec_landing_pad(effective_action(resolved))
            &&& t.exception_ptr == exception_ptr
            &&& t.exception_reg == regs.primary
            &&& t.selector_reg == regs.secondary
            &&& t.selector == 0
        },
{
}

/// A frame with nothing to run is passed over in both phases.
pub proof fn lemma_no_action_continues(
    actions: c_int,
    exception_ptr: uintptr_t,
    regs: RegisterPair,
)
    ensures
        personality_verdict(
            PERSONALITY_VERSION,
            actions,
            exception_ptr,
            Ok(EHAction::NoAction),
            regs,
        ) == Verdict::ContinueUnwind,
{
}

} // verus!
