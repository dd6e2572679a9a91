//! Byte buffers handed across the boundary.
//!
//! A [`DynamicBuffer`] owns its bytes and carries the recipe that releases them,
//! so the receiving side can free the memory without knowing how it was
//! allocated. A [`DynamicBufferView`] only borrows bytes for the length of one call.
use vstd::prelude::*;

verus! {

/// How the bytes of a [`DynamicBuffer`] were allocated, and so how they are released.
#[derive(Debug, Clone, Copy, PartialEq, Eq, Structural)]
pub enum Destructor {
    /// The bytes came from an owned byte vector shrunk to its exact length.
    FreeBoxedSlice,
}

/// Why a [`DynamicBuffer`] could not be released.
#[derive(Debug, Clone, Copy, PartialEq, Eq, Structural)]
pub enum DestroyError {
    /// The destructor reported a non-zero status.
    DestructorFailed,
    /// The buffer holds bytes but no destructor to release them.
    MissingDestructor,
}

/// A byte buffer together with the recipe that releases it.
///
/// `pointer` is `None` for the null address.
pub struct DynamicBuffer {
    pub pointer: Option<Vec<u8>>,
    pub length: usize,
    pub destructor: Option<Destructor>,
}

impl DynamicBuffer {
    /// The canonical released state: null pointer, zero length, no destructor.
    pub open spec fn is_empty_shell(&self) -> bool {
        &&& self.pointer is None
        &&& self.length == 0
        &&& self.destructor is None
    }

    /// The bytes the buffer holds (empty for the null pointer).
    pub open spec fn bytes(&self) -> Seq<u8> {
        match self.pointer {
            Some(v) => v@,
            None => Seq::empty(),
        }
    }

    /// Takes ownership of `value`; the buffer records that it must be released
    /// as a boxed slice of exactly `value.len()` bytes. No bytes give the empty
    /// shell, which holds no allocation and no destructor.
    pub fn from(value: Vec<u8>) -> (r: Self)
        ensures
            value@.len() == 0 ==> r.is_empty_shell(),
            value@.len() > 0 ==> {
                &&& r.pointer == Some(value)
                &&& r.length == value@.len()
                &&& r.destructor == Some(Destructor::FreeBoxedSlice)
            },
            r.bytes() == value@,
    {
        let length = value.len();
        if length == 0 {
            return DynamicBuffer { pointer: None, length: 0, destructor: None };
        }
        DynamicBuffer { pointer: Some(value), length, destructor: Some(Destructor::FreeBoxedSlice) }
    }

    /// Releases the bytes with the recorded destructor and empties the buffer.
    ///
    /// A null pointer is a no-op that only finishes emptying the buffer. When the
    /// destructor fails, or there is none, the buffer is left as it was.
    pub fn destroy(&mut self) -> (r: Result<(), DestroyError>)
        ensures
            destroy_outcome(*old(self), *final(self), r),
            r == Err::<(), DestroyError>(DestroyError::DestructorFailed) <==> (
                old(self).pointer is Some && old(self).destructor is Some
                    && old(self).bytes().len() != old(self).length),
    {
        match release_action(self.pointer.is_none(), self.destructor.is_some()) {
            ReleaseAction::Clear => {
                self.length = 0;
                self.destructor = None;
                Ok(())
            },
            ReleaseAction::Refuse => Err(DestroyError::MissingDestructor),
            ReleaseAction::CallDestructor => {
                let res = free_u8_ptr_built_from_vec_u8(&mut self.pointer, self.length);
                let (emptied, _) = finish_release(ReleaseAction::CallDestructor, res);
                if emptied {
                    self.length = 0;
                    self.destructor = None;
                    Ok(())
                } else {
                    Err(DestroyError::DestructorFailed)
                }
            },
        }
    }
}

/// What releasing a buffer calls for, before anything is freed.
#[derive(Debug, Clone, Copy, PartialEq, Eq, Structural)]
pub enum ReleaseAction {
    /// The pointer is null: only finish emptying the buffer.
    Clear,
    /// Call the destructor on the pointer and length.
    CallDestructor,
    /// Bytes without a destructor: nothing can free them.
    Refuse,
}

/// The first step of a release, from whether the pointer is null and whether
/// a destructor is recorded.
pub fn release_action(pointer_is_null: bool, has_destructor: bool) -> (r: ReleaseAction)
    ensures
        pointer_is_null ==> r == ReleaseAction::Clear,
        !pointer_is_null && has_destructor ==> r == ReleaseAction::CallDestructor,
        !pointer_is_null && !has_destructor ==> r == ReleaseAction::Refuse,
{
    if pointer_is_null {
        ReleaseAction::Clear
    } else if has_destructor {
        ReleaseAction::CallDestructor
    } else {
        ReleaseAction::Refuse
    }
}

/// The last step of a release: whether the buffer becomes the empty shell, and
/// the status code reported. `destructor_status` is what the destructor
/// returned; it is read only after [`ReleaseAction::CallDestructor`].
pub fn finish_release(action: ReleaseAction, destructor_status: i32) -> (r: (bool, i32))
    ensures
        action == ReleaseAction::Clear ==> r == (true, 0i32),
        action == ReleaseAction::Refuse ==> r == (false, 1i32),
        action == ReleaseAction::CallDestructor ==> r == (
            if destructor_status == 0 { (true, 0i32) } else { (false, 1i32) }),
{
    match action {
        ReleaseAction::Clear => (true, 0),
        ReleaseAction::Refuse => (false, 1),
        ReleaseAction::CallDestructor => {
            if destructor_status == 0 {
                (true, 0)
            } else {
                (false, 1)
            }
        },
    }
}

/// Releases bytes that [`DynamicBuffer::from`] took from a byte vector.
///
/// The allocation is only released when `length` is its exact size; otherwise
/// nothing is touched and the status is 1. The null pointer is a no-op.
pub fn free_u8_ptr_built_from_vec_u8(pointer: &mut Option<Vec<u8>>, length: usize) -> (r: i32)
    ensures
        *old(pointer) is None ==> r == 0 && *final(pointer) is None,
        *old(pointer) matches Some(v) && v@.len() == length ==> r == 0 && *final(pointer) is None,
        *old(pointer) matches Some(v) && v@.len() != length ==> r == 1 && *final(pointer) == *old(pointer),
{
    let fits = match pointer {
        Some(v) => v.len() == length,
        None => true,
    };
    if fits {
        *pointer = None;
        0
    } else {
        1
    }
}

/// Releases `dynamic_buffer` as [`DynamicBuffer::destroy`] does, and reports
/// 0 on success and 1 on failure. (A reference is never null: a caller holding
/// a null address has nothing to release and reports 0 itself.)
pub fn destroy_dynamic_buffer(dynamic_buffer: &mut DynamicBuffer) -> (r: i32)
    ensures
        exists|e: Result<(), DestroyError>|
            destroy_outcome(*old(dynamic_buffer), *final(dynamic_buffer), e) && (r == 0 <==> e is Ok),
        r == 0 || r == 1,
{
    match dynamic_buffer.destroy() {
        Ok(_) => 0,
        Err(_) => 1,
    }
}

/// A read-only view over bytes that someone else owns, valid while they live.
pub struct DynamicBufferView<'a> {
    pub pointer: &'a [u8],
    pub length: usize,
}

impl<'a> DynamicBufferView<'a> {
    /// The length field agrees with the bytes viewed.
    pub open spec fn wf(&self) -> bool {
        self.length == self.pointer@.len()
    }

    /// A view over all of `a`.
    pub fn from(a: &'a [u8]) -> (r: Self)
        ensures
            r.pointer@ == a@,
            r.wf(),
    {
        DynamicBufferView { pointer: a, length: a.len() }
    }

    /// The bytes viewed.
    pub fn as_slice(&self) -> (r: &'a [u8])
        ensures
            r@ == self.pointer@,
    {
        self.pointer
    }
}

/// Building a buffer from any bytes and then releasing it succeeds and leaves
/// the empty shell. `built` stands for any buffer that [`DynamicBuffer::from`]
/// may return for `b`.
pub proof fn lemma_from_then_destroy(b: Seq<u8>, built: DynamicBuffer)
    requires
        b.len() == 0 ==> built.is_empty_shell(),
        b.len() > 0 ==> {
            &&& built.pointer matches Some(v) && v@ == b
            &&& built.length == b.len()
            &&& built.destructor == Some(Destructor::FreeBoxedSlice)
        },
    ensures
        forall|after: DynamicBuffer, r: Result<(), DestroyError>|
            destroy_outcome(built, after, r) ==> r is Ok && after.is_empty_shell(),
{
}

/// Releasing the empty shell succeeds and leaves it as it was, however often it
/// is done.
pub proof fn lemma_destroy_empty_shell(shell: DynamicBuffer)
    requires
        shell.is_empty_shell(),
    ensures
        forall|after: DynamicBuffer, r: Result<(), DestroyError>|
            destroy_outcome(shell, after, r) ==> r is Ok && after.is_empty_shell(),
{
}

/// What [`DynamicBuffer::destroy`] promises of a call on `before` that left
/// `after` and returned `r`.
pub open spec fn destroy_outcome(before: DynamicBuffer, after: DynamicBuffer, r: Result<(), DestroyError>) -> bool {
    &&& before.pointer is None ==> r is Ok
    &&& r is Ok ==> after.is_empty_shell()
    &&& r is Err ==> after == before
    &&& before.pointer is Some && before.destructor is None
        ==> r == Err::<(), DestroyError>(DestroyError::MissingDestructor)
    &&& before.pointer is Some && before.destructor == Some(Destructor::FreeBoxedSlice)
        ==> (r is Ok <==> before.bytes().len() == before.length)
}

} // verus!
