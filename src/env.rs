use vstd::prelude::*;

verus! {

/// A solver environment: one native session handle, and whether this value
/// is the one responsible for tearing the handle down.
///
/// Exactly one `Env` per physical handle is the owner; every other `Env` for
/// that handle is a non-owning view made by `shallow_copy` or `from_raw`.
pub struct Env<H> {
    handle: H,
    owns_handle: bool,
}

impl<H: Copy> Env<H> {
    /// The native handle this environment refers to.
    pub closed spec fn spec_handle(&self) -> H {
        self.handle
    }

    /// Whether this value is the owner of its handle.
    pub closed spec fn spec_owns_handle(&self) -> bool {
        self.owns_handle
    }

    /// Takes ownership of a freshly created native environment handle.
    pub fn new(handle: H) -> (r: Env<H>)
        ensures
            r.spec_handle() == handle,
            r.spec_owns_handle(),
    {
        Env { handle, owns_handle: true }
    }

    /// A non-owning view of the same handle. Releasing it never tears the
    /// handle down, so it must not outlive the owner.
    pub fn shallow_copy(other: &Env<H>) -> (r: Env<H>)
        ensures
            r.spec_handle() == other.spec_handle(),
            !r.spec_owns_handle(),
    {
        Env { handle: other.handle, owns_handle: false }
    }

    /// The native handle this environment refers to.
    pub fn handle(&self) -> (r: H)
        ensures
            r == self.spec_handle(),
    {
        self.handle
    }

    /// Whether this value is the owner of its handle.
    pub fn owns_handle(&self) -> (r: bool)
        ensures
            r == self.spec_owns_handle(),
    {
        self.owns_handle
    }

    /// Gives the environment up. Returns the handle that must now be
    /// destroyed natively: the owner's handle, and nothing for a view.
    pub fn release(self) -> (r: Option<H>)
        ensures
            r == (if self.spec_owns_handle() {
                Some(self.spec_handle())
            } else {
                None
            }),
    {
        if self.owns_handle {
            Some(self.handle)
        } else {
            None
        }
    }
}

/// Builds a value from a native handle that something else owns.
pub trait FromRaw<H>: Sized {
    /// The handle the value refers to.
    spec fn raw_handle(&self) -> H;

    /// Whether the value owns its handle.
    spec fn raw_owner(&self) -> bool;

    /// A non-owning value for `handle`.
    fn from_raw(handle: H) -> (r: Self)
        ensures
            r.raw_handle() == handle,
            !r.raw_owner(),
    ;
}

impl<H: Copy> FromRaw<H> for Env<H> {
    open spec fn raw_handle(&self) -> H {
        self.spec_handle()
    }

    open spec fn raw_owner(&self) -> bool {
        self.spec_owns_handle()
    }

    fn from_raw(handle: H) -> (r: Env<H>) {
        Env { handle, owns_handle: false }
    }
}

} // verus!
