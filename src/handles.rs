//! Opaque handles: caller-owned tokens for objects that the library keeps.
//!
//! A handle is a non-zero `u64`; 0 is the null handle. Constructors hand out a
//! fresh handle, and the matching destroy releases its object exactly once.
use vstd::prelude::*;

verus! {

/// The null handle.
pub const NULL_HANDLE: u64 = 0;

/// The objects of one type that callers currently own, by handle.
/// Handle `h` stands for slot `h - 1`; a released slot holds `None` and is
/// never handed out again.
pub struct HandleTable<T> {
    slots: Vec<Option<T>>,
}

impl<T> HandleTable<T> {
    /// The slots, in handle order.
    pub closed spec fn view(&self) -> Seq<Option<T>> {
        self.slots@
    }

    /// `h` names an object that has not been released.
    pub open spec fn is_live(&self, h: u64) -> bool {
        1 <= h <= self.view().len() && self.view()[h - 1] is Some
    }

    /// The object behind a live handle.
    pub open spec fn object(&self, h: u64) -> T
        recommends
            self.is_live(h),
    {
        self.view()[h - 1]->Some_0
    }

    /// An empty table.
    pub fn new() -> (r: Self)
        ensures
            r.view() == Seq::<Option<T>>::empty(),
    {
        HandleTable { slots: Vec::new() }
    }

    /// How many handles were ever handed out.
    pub fn issued(&self) -> (r: usize)
        ensures
            r == self.view().len(),
    {
        self.slots.len()
    }

    /// Stores `value` under a fresh handle, or returns the null handle (and keeps
    /// `value` out of the table) once every handle has been used.
    pub fn insert(&mut self, value: T) -> (h: u64)
        ensures
            h != NULL_HANDLE <==> has_room(*old(self)),
            h != NULL_HANDLE ==> inserted(*old(self), *final(self), h, value),
            h == NULL_HANDLE ==> final(self).view() == old(self).view(),
    {
        if self.slots.len() as u128 >= u64::MAX as u128 {
            return NULL_HANDLE;
        }
        self.slots.push(Some(value));
        self.slots.len() as u64
    }

    /// The object behind `h`, when `h` is live.
    pub fn get(&self, h: u64) -> (r: Option<&T>)
        ensures
            self.is_live(h) ==> r == Some(&self.object(h)),
            !self.is_live(h) ==> r is None,
    {
        if h == NULL_HANDLE || h as u128 > self.slots.len() as u128 {
            return None;
        }
        match &self.slots[(h - 1) as usize] {
            Some(v) => Some(v),
            None => None,
        }
    }

    /// Releases the object behind `h`. Destroying the null handle is a no-op
    /// that reports 0; a live handle is released and reports 0; any other handle
    /// (released already, or never handed out) reports 1 and changes nothing.
    pub fn destroy(&mut self, h: u64) -> (r: i32)
        ensures
            destroy_outcome(*old(self), *final(self), h, r),
    {
        if h == NULL_HANDLE {
            return 0;
        }
        if h as u128 > self.slots.len() as u128 {
            return 1;
        }
        let i = (h - 1) as usize;
        if self.slots[i].is_none() {
            return 1;
        }
        self.slots.set(i, None);
        0
    }
}

/// `after` is `before` with `v` stored under the fresh handle `h`.
pub open spec fn inserted<T>(before: HandleTable<T>, after: HandleTable<T>, h: u64, v: T) -> bool {
    &&& h == before.view().len() + 1
    &&& after.view() == before.view().push(Some(v))
    &&& after.is_live(h)
    &&& after.object(h) == v
}

/// The table can still hand out a fresh handle.
pub open spec fn has_room<T>(t: HandleTable<T>) -> bool {
    t.view().len() < u64::MAX
}

/// Destroying the null handle of any table succeeds and changes nothing.
pub proof fn lemma_destroy_null_is_noop<T>(before: HandleTable<T>, after: HandleTable<T>, r: i32)
    requires
        destroy_outcome(before, after, NULL_HANDLE, r),
    ensures
        r == 0,
        after.view() == before.view(),
{
}

/// What [`HandleTable::destroy`] promises of a call on `before` with `h` that
/// left `after` and returned `r`.
pub open spec fn destroy_outcome<T>(before: HandleTable<T>, after: HandleTable<T>, h: u64, r: i32) -> bool {
    &&& h == NULL_HANDLE ==> r == 0 && after.view() == before.view()
    &&& before.is_live(h) ==> r == 0 && after.view() == before.view().update(h - 1, None)
    &&& h != NULL_HANDLE && !before.is_live(h) ==> r == 1 && after.view() == before.view()
}

} // verus!
