//! A table of owned values addressed by integer handles.
//!
//! Handle `h` names slot `h - 1`. Slots are never reused: a released handle
//! stays released for good, so a second release or a late query is always
//! detected instead of reaching another value.

use vstd::prelude::*;

verus! {

/// Why a release could not be carried out.
#[derive(Clone, Copy, Debug, PartialEq, Eq, Structural)]
pub enum HandleError {
    /// The handle was never issued by this table.
    Unknown,
    /// The handle was issued and has already been released.
    Released,
    /// The handle is live but names a value of another kind.
    WrongKind,
}

/// The handle that names nothing; queries on it give a default and a
/// release of it does nothing.
pub const NULL_HANDLE: isize = 0;

/// Handle `h` has been issued by a table whose slots are `s`.
pub open spec fn issued<T>(s: Seq<Option<T>>, h: int) -> bool {
    1 <= h <= s.len()
}

/// Handle `h` is issued and not yet released.
pub open spec fn live<T>(s: Seq<Option<T>>, h: int) -> bool {
    issued(s, h) && s[h - 1] is Some
}

/// The value behind a live handle.
pub open spec fn value_at<T>(s: Seq<Option<T>>, h: int) -> T {
    s[h - 1]->Some_0
}

/// The same handles are live in `a` and `b`, each with the same value.
pub open spec fn same_live<T>(a: Seq<Option<T>>, b: Seq<Option<T>>) -> bool {
    forall|g: int|
        #![trigger live(a, g)]
        #![trigger live(b, g)]
        live(a, g) == live(b, g) && (live(a, g) ==> value_at(a, g) == value_at(b, g))
}

/// The slots after a release of `h`: only a live handle loses its value.
pub open spec fn released<T>(s: Seq<Option<T>>, h: int) -> Seq<Option<T>> {
    if h != NULL_HANDLE && live(s, h) {
        s.update(h - 1, None)
    } else {
        s
    }
}

/// What a release of `h` reports.
pub open spec fn release_result<T>(s: Seq<Option<T>>, h: int) -> Result<(), HandleError> {
    if h == NULL_HANDLE || live(s, h) {
        Ok(())
    } else if issued(s, h) {
        Err(HandleError::Released)
    } else {
        Err(HandleError::Unknown)
    }
}

/// Releasing the null handle succeeds and changes nothing.
pub proof fn lemma_release_null<T>(s: Seq<Option<T>>)
    ensures
        released(s, NULL_HANDLE as int) == s,
        release_result(s, NULL_HANDLE as int) == Ok::<(), HandleError>(()),
{
}

/// Release is not idempotent: once a live handle has been released, a second
/// release of it is refused as `Released` and changes nothing.
pub proof fn lemma_release_twice<T>(s: Seq<Option<T>>, h: int)
    requires
        h != NULL_HANDLE,
        live(s, h),
    ensures
        release_result(s, h) == Ok::<(), HandleError>(()),
        !live(released(s, h), h),
        release_result(released(s, h), h) == Err::<(), HandleError>(HandleError::Released),
        released(released(s, h), h) == released(s, h),
{
}

/// Releasing one handle leaves every other handle as it was.
pub proof fn lemma_release_independent<T>(s: Seq<Option<T>>, h: int, g: int)
    requires
        g != h,
    ensures
        live(released(s, h), g) == live(s, g),
        live(s, g) ==> value_at(released(s, h), g) == value_at(s, g),
{
}

/// Taking ownership of a new value keeps every issued handle as it was: a
/// released handle is never live again, and a live one keeps its value.
pub proof fn lemma_construct_keeps_others<T>(s: Seq<Option<T>>, v: T, g: int)
    requires
        issued(s, g),
    ensures
        live(s.push(Some(v)), g) == live(s, g),
        live(s, g) ==> value_at(s.push(Some(v)), g) == value_at(s, g),
{
}

/// Values owned by the table, each reachable through the handle that
/// `construct` gave for it until `destroy` releases it.
pub struct HandleTable<T> {
    slots: Vec<Option<T>>,
}

impl<T> View for HandleTable<T> {
    type V = Seq<Option<T>>;

    closed spec fn view(&self) -> Seq<Option<T>> {
        self.slots@
    }
}

impl<T> HandleTable<T> {
    /// Handle `h` is live in this table.
    pub open spec fn is_live(&self, h: int) -> bool {
        live(self@, h)
    }

    /// The value behind live handle `h`.
    pub open spec fn value(&self, h: int) -> T {
        value_at(self@, h)
    }

    /// An empty table: no handle has been issued.
    pub fn new() -> (t: Self)
        ensures
            t@ == Seq::<Option<T>>::empty(),
    {
        HandleTable { slots: Vec::new() }
    }

    /// How many handles have been issued, released ones included.
    pub fn issued_count(&self) -> (n: usize)
        ensures
            n == self@.len(),
    {
        self.slots.len()
    }

    /// Takes ownership of `v` and gives the fresh handle that now names it.
    pub fn construct(&mut self, v: T) -> (h: isize)
        requires
            old(self)@.len() < isize::MAX,
        ensures
            h == old(self)@.len() + 1,
            h != NULL_HANDLE,
            !issued(old(self)@, h as int),
            final(self)@ == old(self)@.push(Some(v)),
            final(self).is_live(h as int),
            final(self).value(h as int) == v,
    {
        self.slots.push(Some(v));
        self.slots.len() as isize
    }

    /// Handle `h` is live.
    pub fn contains(&self, h: isize) -> (r: bool)
        ensures
            r == self.is_live(h as int),
    {
        if h < 1 || h as usize > self.slots.len() {
            false
        } else {
            self.slots[(h - 1) as usize].is_some()
        }
    }

    /// The value behind `h`, or `None` where `h` is not live.
    pub fn get(&self, h: isize) -> (r: Option<&T>)
        ensures
            r is Some <==> self.is_live(h as int),
            self.is_live(h as int) ==> *r->Some_0 == self.value(h as int),
    {
        if h < 1 || h as usize > self.slots.len() {
            None
        } else {
            match &self.slots[(h - 1) as usize] {
                Some(v) => Some(v),
                None => None,
            }
        }
    }

    /// Releases the value behind `h`. The null handle is a no-op; a handle
    /// that is released already, or was never issued, is reported and
    /// changes nothing.
    pub fn destroy(&mut self, h: isize) -> (r: Result<(), HandleError>)
        ensures
            final(self)@ == released(old(self)@, h as int),
            r == release_result(old(self)@, h as int),
    {
        if h == NULL_HANDLE {
            return Ok(());
        }
        if h < 1 || h as usize > self.slots.len() {
            return Err(HandleError::Unknown);
        }
        let i: usize = (h - 1) as usize;
        if self.slots[i].is_none() {
            return Err(HandleError::Released);
        }
        self.slots.set(i, None);
        Ok(())
    }
}

} // verus!
