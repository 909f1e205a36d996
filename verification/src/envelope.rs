//! The exception envelope and its lifecycle.
//!
//! A panic travels up the stack as an envelope: the class tag under which the
//! unwinder knows the exception, and a slot with the payload. Raising fills
//! the slot, and the catch site empties it, once.

use vstd::prelude::*;

verus! {

/// Vendor half of the class tag: the bytes `M O Z \0`.
pub const VENDOR_ID: u32 = 0x4d4f5a00;

/// Language half of the class tag: the bytes `R U S T`.
pub const LANGUAGE_ID: u32 = 0x52555354;

/// The class tag of every exception raised here: the vendor in the upper four
/// bytes, the language in the lower four.
pub const RUST_EXCEPTION_CLASS: u64 = 0x4d4f5a_00_52555354;

/// The class tag for a vendor and a language.
pub open spec fn exception_class_of(vendor: u32, language: u32) -> u64 {
    ((vendor as u64) << 32) | (language as u64)
}

/// The class tag by which personality routines tell whether an exception was
/// raised by their own runtime.
pub fn rust_exception_class() -> (class: u64)
    ensures
        class == RUST_EXCEPTION_CLASS,
        class == exception_class_of(VENDOR_ID, LANGUAGE_ID),
{
    let vendor: u64 = VENDOR_ID as u64;
    let language: u64 = LANGUAGE_ID as u64;
    let class: u64 = (vendor << 32) | language;
    assert(class == 0x4d4f5a_00_52555354u64) by (bit_vector)
        requires
            vendor == 0x4d4f5a00u64,
            language == 0x52555354u64,
            class == (vendor << 32) | language,
    ;
    class
}

/// An exception in flight: the class tag and the payload slot.
pub struct Envelope<P> {
    exception_class: u64,
    cause: Option<P>,
}

/// What an envelope holds.
pub struct EnvelopeView<P> {
    pub exception_class: u64,
    pub cause: Option<P>,
}

impl<P> View for Envelope<P> {
    type V = EnvelopeView<P>;

    closed spec fn view(&self) -> EnvelopeView<P> {
        EnvelopeView { exception_class: self.exception_class, cause: self.cause }
    }
}

/// The envelope that raising `data` creates.
pub open spec fn raised<P>(data: P) -> EnvelopeView<P> {
    EnvelopeView { exception_class: RUST_EXCEPTION_CLASS, cause: Some(data) }
}

/// Extraction: what comes out of an envelope, and the envelope that is left.
pub open spec fn extract<P>(envelope: EnvelopeView<P>) -> (Option<P>, EnvelopeView<P>) {
    (envelope.cause, EnvelopeView { exception_class: envelope.exception_class, cause: None })
}

impl<P> Envelope<P> {
    /// Every envelope carries the class tag of this runtime.
    #[verifier::type_invariant]
    spec fn tagged(self) -> bool {
        self.exception_class == RUST_EXCEPTION_CLASS
    }

    /// The class tag to put into the exception header.
    pub fn exception_class(&self) -> (class: u64)
        ensures
            class == self@.exception_class,
            class == RUST_EXCEPTION_CLASS,
    {
        proof {
            use_type_invariant(self);
        }
        self.exception_class
    }

    /// Whether the payload is still in the slot.
    pub fn has_payload(&self) -> (present: bool)
        ensures
            present == self@.cause is Some,
    {
        self.cause.is_some()
    }

    /// Empties the slot and hands out what was in it: the payload the first
    /// time, `None` ever after.
    pub fn take_payload(&mut self) -> (cause: Option<P>)
        ensures
            (cause, final(self)@) == extract(old(self)@),
    {
        proof {
            use_type_invariant(&*self);
        }
        let mut cause: Option<P> = None;
        core::mem::swap(&mut self.cause, &mut cause);
        cause
    }
}

/// Wraps `data` into the envelope under which it is raised.
pub fn panic<P>(data: P) -> (envelope: Envelope<P>)
    ensures
        envelope@ == raised(data),
{
    Envelope { exception_class: rust_exception_class(), cause: Some(data) }
}

/// Reserved; always the null address.
pub fn payload() -> (p: usize)
    ensures
        p == 0,
{
    0
}

/// Takes the payload out of a caught envelope.
///
/// The envelope must still hold its payload: an envelope is cleaned up once.
pub fn cleanup<P>(handle: &mut Envelope<P>) -> (data: P)
    requires
        old(handle)@.cause is Some,
    ensures
        (Some(data), final(handle)@) == extract(old(handle)@),
{
    let cause = handle.take_payload();
    cause.unwrap()
}

/// Round trip: what is raised is what the catch site gets, and it gets it
/// once. A second extraction finds the slot empty.
pub proof fn lemma_round_trip<P>(data: P)
    ensures
        extract(raised(data)).0 == Some(data),
        extract(extract(raised(data)).1).0 == None::<P>,
{
}

/// Single extraction: whatever an envelope held, nothing is left in it after
/// an extraction, and extracting again changes nothing.
pub proof fn lemma_single_extraction<P>(envelope: EnvelopeView<P>)
    ensures
        extract(envelope).1.cause is None,
        extract(extract(envelope).1) == (None::<P>, extract(envelope).1),
        extract(envelope).1.exception_class == envelope.exception_class,
{
}

} // verus!
