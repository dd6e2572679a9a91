use vstd::prelude::*;

verus! {

/// Why an inbound address was refused.
#[derive(Debug, Clone, Copy, PartialEq, Eq, Structural)]
pub enum PointerError {
    NullOrMisaligned,
}

/// An address is usable for a type of alignment `align` when it is non-null
/// and a multiple of that alignment.
pub open spec fn usable_address(addr: usize, align: usize) -> bool {
    addr != 0 && addr % align == 0
}

/// Checks an inbound address before anything reads or writes through it.
/// Liveness and initialisation of the memory stay the caller's promise.
pub fn check_ptr_is_non_null_and_aligned(addr: usize, align: usize) -> (r: Result<(), PointerError>)
    requires
        align > 0,
    ensures
        r is Ok <==> usable_address(addr, align),
        r is Err ==> r == Err::<(), PointerError>(PointerError::NullOrMisaligned),
{
    if addr != 0 && addr % align == 0 {
        Ok(())
    } else {
        Err(PointerError::NullOrMisaligned)
    }
}

} // verus!
