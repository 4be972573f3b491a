//! The live, scope-bound class handle consumed by this adapter, together
//! with the environment scope that bounds its validity.

use core::marker::PhantomData;
use vstd::prelude::*;

verus! {

/// A JNI environment scope.
///
/// Class handles are resolved inside a scope and are only valid while that
/// scope lives: a [`JClass`] borrows its scope, so the borrow checker rejects
/// any attempt to keep a handle (or a descriptor wrapping one) beyond it.
pub struct JniEnv {}

impl JniEnv {
    /// Opens a scope within which class handles may live.
    pub fn new() -> (e: JniEnv) {
        JniEnv {}
    }
}

/// An opaque handle to a class already resolved inside a JNI scope.
///
/// The handle is move-only and is never dereferenced by this layer; it is
/// stored as-is and handed to the facade, which uses it directly instead of
/// performing a class lookup. Its validity is bounded by the scope `'a` it
/// was resolved in.
pub struct JClass<'a> {
    raw: u64,
    scope: PhantomData<&'a JniEnv>,
}

impl<'a> JClass<'a> {
    /// The underlying reference the JVM handed out, as an identity.
    pub closed spec fn raw_id(&self) -> u64 {
        self.raw
    }

    /// Wraps the raw class reference `raw`, resolved inside `scope`.
    pub fn new(scope: &'a JniEnv, raw: u64) -> (c: JClass<'a>)
        ensures
            c.raw_id() == raw,
    {
        JClass { raw, scope: PhantomData }
    }

    /// The underlying raw class reference, for the facade's direct use.
    pub fn raw(&self) -> (r: u64)
        ensures
            r == self.raw_id(),
    {
        self.raw
    }
}

} // verus!
