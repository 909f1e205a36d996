//! The action that a frame asks for, and the context under which the frame's
//! metadata table is searched for it.
//!
//! Decoding the table itself is the business of the metadata decoder. This
//! module settles what the decoder is asked: which instruction pointer is
//! looked up, and whether the question may be put at all.

use sgx_types::{c_int, uintptr_t};
use vstd::prelude::*;

verus! {

/// What the unwinder has to do for one frame.
#[derive(Clone, Copy, Debug, PartialEq, Eq, Structural)]
pub enum EHAction {
    /// The frame has nothing to run.
    NoAction,
    /// The frame has cleanup code at this landing pad.
    Cleanup(uintptr_t),
    /// The frame catches the exception at this landing pad.
    Catch(uintptr_t),
    /// Unwinding must not go past this frame.
    Terminate,
}

/// The landing pad of an action, for the actions that have one.
pub open spec fn spec_landing_pad(action: EHAction) -> Option<uintptr_t> {
    match action {
        EHAction::Cleanup(lpad) | EHAction::Catch(lpad) => Some(lpad),
        EHAction::NoAction | EHAction::Terminate => None,
    }
}

/// The plain part of what the metadata decoder is handed for a frame.
#[derive(Clone, Copy, Debug, PartialEq, Eq, Structural)]
pub struct EHContext {
    /// The instruction pointer to look up. It lies inside the call
    /// instruction, not behind it.
    pub ip: uintptr_t,
    /// The start address of the function that owns the frame.
    pub func_start: uintptr_t,
}

/// The address to look up for an instruction pointer reported by the
/// unwinder.
///
/// A return address points one byte past the call instruction, which may
/// already belong to the next range of the table. Unless the unwinder says
/// that `ip` precedes the instruction (`ip_before_instr != 0`), the lookup
/// therefore uses the address one below.
pub open spec fn lookup_ip(ip: uintptr_t, ip_before_instr: c_int) -> int {
    if ip_before_instr != 0 {
        ip as int
    } else {
        ip - 1
    }
}

/// Whether the lookup address of a frame can lie in the function that owns
/// the frame: it is not below the function's start.
pub open spec fn lookup_in_range(ip: uintptr_t, ip_before_instr: c_int, func_start: uintptr_t) -> bool {
    func_start <= lookup_ip(ip, ip_before_instr)
}

/// Builds the lookup context of a frame from what the unwinder reports.
///
/// Fails, without touching the decoder, when the lookup address would lie
/// below `func_start`; this covers a return address of zero, below which
/// there is no address.
pub fn eh_context(ip: uintptr_t, ip_before_instr: c_int, func_start: uintptr_t) -> (context: Result<
    EHContext,
    (),
>)
    ensures
        context is Ok <==> lookup_in_range(ip, ip_before_instr, func_start),
        context matches Ok(c) ==> c.ip == lookup_ip(ip, ip_before_instr) && c.func_start
            == func_start,
{
    if ip_before_instr != 0 {
        if func_start <= ip {
            Ok(EHContext { ip, func_start })
        } else {
            Err(())
        }
    } else if func_start < ip {
        Ok(EHContext { ip: ip - 1, func_start })
    } else {
        Err(())
    }
}

/// Off-by-one guard: a return address that sits exactly on the boundary
/// between two ranges of a table is looked up in the earlier range, not in
/// the later one.
pub proof fn lemma_boundary_resolves_in_earlier_range(
    start: uintptr_t,
    boundary: uintptr_t,
    end: uintptr_t,
)
    requires
        start < boundary <= end,
    ensures
        start <= lookup_ip(boundary, 0) < boundary,
        !(boundary <= lookup_ip(boundary, 0) < end),
        lookup_in_range(boundary, 0, start),
{
}

/// An instruction pointer that already precedes the instruction is looked up
/// as it is.
pub proof fn lemma_ip_before_instr_is_kept(ip: uintptr_t, ip_before_instr: c_int)
    requires
        ip_before_instr != 0,
    ensures
        lookup_ip(ip, ip_before_instr) == ip,
{
}

} // verus!
