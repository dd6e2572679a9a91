//! The last-error slot and the status protocol of boundary calls.
//!
//! Each thread owns one [`LastError`] slot. When a call faults, the fault's
//! payload is rendered into the slot and the call reports status 1 instead of
//! unwinding into the caller.
use vstd::prelude::*;
use vstd::string::StringSliceAdditionalSpecFns;

verus! {

/// The most recent failure of a boundary call on one thread.
#[derive(Debug)]
pub enum LastError {
    /// No failure was recorded.
    Empty,
    /// The failure's message, free of NUL bytes so that it can be handed out
    /// as a NUL-terminated string.
    Message(Vec<u8>),
    /// A failure happened but its message could not be materialised.
    CaptureFailed,
}

/// The bytes of "panic occurred", used for a payload that carries no text.
pub open spec fn fallback_message() -> Seq<u8> {
    seq![112u8, 97, 110, 105, 99, 32, 111, 99, 99, 117, 114, 114, 101, 100]
}

/// The bytes a payload is rendered to: its text, or the fallback message.
pub open spec fn payload_bytes(payload: Option<&str>) -> Seq<u8> {
    match payload {
        Some(s) => s.spec_bytes(),
        None => fallback_message(),
    }
}

pub open spec fn has_nul(b: Seq<u8>) -> bool {
    exists|i: int| 0 <= i < b.len() && b[i] == 0
}

/// `e` is what a fault with `payload` leaves in the slot: the rendered message,
/// or `CaptureFailed` when the message cannot be a NUL-terminated string.
pub open spec fn renders(e: LastError, payload: Option<&str>) -> bool {
    if has_nul(payload_bytes(payload)) {
        e is CaptureFailed
    } else {
        e matches LastError::Message(m) && m@ == payload_bytes(payload)
    }
}

fn fallback_message_vec() -> (r: Vec<u8>)
    ensures
        r@ == fallback_message(),
{
    let r: Vec<u8> = vec![112u8, 97, 110, 105, 99, 32, 111, 99, 99, 117, 114, 114, 101, 100];
    assert(r@ =~= fallback_message());
    r
}

fn contains_nul(b: &Vec<u8>) -> (r: bool)
    ensures
        r == has_nul(b@),
{
    let mut i: usize = 0;
    while i < b.len()
        invariant
            i <= b@.len(),
            forall|j: int| 0 <= j < i ==> b@[j] != 0,
        decreases b@.len() - i,
    {
        if b[i] == 0 {
            return true;
        }
        i = i + 1;
    }
    false
}

/// Renders a fault's payload (its text, when it carries one) into a slot value.
pub fn panic_payload_to_error(payload: Option<&str>) -> (r: LastError)
    ensures
        renders(r, payload),
{
    let bytes = match payload {
        Some(s) => vstd::slice::slice_to_vec(s.as_bytes()),
        None => fallback_message_vec(),
    };
    if contains_nul(&bytes) {
        LastError::CaptureFailed
    } else {
        LastError::Message(bytes)
    }
}

/// Overwrites the slot with what a fault with `payload` leaves there.
pub fn replace_last_error_with_panic_payload(slot: &mut LastError, payload: Option<&str>)
    ensures
        renders(*final(slot), payload),
{
    *slot = panic_payload_to_error(payload);
}

/// Ends a boundary call. A body that completed (`Ok`) reports its own status
/// and leaves the slot alone; a body that faulted (`Err`, with the fault's text
/// if any) reports 1 and records the fault in the slot.
pub fn finish_call(outcome: Result<i32, Option<&str>>, slot: &mut LastError) -> (r: i32)
    ensures
        outcome matches Ok(c) ==> r == c && *final(slot) == *old(slot),
        outcome matches Err(p) ==> r == 1 && renders(*final(slot), p),
{
    match outcome {
        Ok(c) => c,
        Err(p) => {
            replace_last_error_with_panic_payload(slot, p);
            1
        },
    }
}

} // verus!
