//! Thread-confined shared handle.
//!
//! The shared context record is bound to its creating thread: the wrapper
//! itself may be stored, cloned and passed across threads freely, but
//! dereferencing it from any other thread deterministically fails the
//! confinement check instead of silently corrupting the context.  Thread
//! identities are carried as plain tokens the embedding supplies.

use vstd::prelude::*;

use std::sync::Arc;

verus! {

/// A shared handle confined to the thread that created it.
pub struct Starc<T> {
    arc: Arc<T>,
    thread: u64,
}

/// Relies on std::sync::Arc::try_unwrap: hands back the inner value when
/// this handle holds the only reference, else returns the same handle.
#[verifier::external_body]
fn arc_try_unwrap<T>(this: Arc<T>) -> (r: Result<T, Arc<T>>)
    ensures
        match r {
            Ok(v) => v == this,
            Err(e) => e == this,
        },
{
    Arc::try_unwrap(this)
}

/// Relies on std::sync::Arc::get_mut: a mutable borrow of the value when
/// this handle holds the only reference, else nothing.
#[verifier::external_body]
fn arc_get_mut<T>(this: &mut Arc<T>) -> (r: Option<&mut T>)
    ensures
        r matches Some(v) ==> *v == **old(this) && **final(this) == *final(v),
        r is None ==> **final(this) == **old(this),
{
    Arc::get_mut(this)
}

impl<T> Starc<T> {
    /// The identity of the creating thread.
    pub closed spec fn spec_thread(&self) -> u64 {
        self.thread
    }

    /// The shared value.
    pub closed spec fn spec_value(&self) -> T {
        *self.arc
    }

    /// Wraps a value, confining dereferences to the creating thread, whose
    /// identity the caller supplies.
    pub fn new(value: T, creator: u64) -> (r: Self)
        ensures
            r.spec_value() == value,
            r.spec_thread() == creator,
    {
        Starc { arc: Arc::new(value), thread: creator }
    }

    /// The confinement check itself: only the creating thread passes.
    pub open spec fn spec_confined_to(&self, current: u64) -> bool {
        current == self.spec_thread()
    }

    /// Dereferences the handle from the given thread.  From the creating
    /// thread this yields the shared value; from any other thread it
    /// deterministically fails the confinement check.
    pub fn try_deref(&self, current: u64) -> (r: Option<&T>)
        ensures
            self.spec_confined_to(current) ==> (r matches Some(v) && *v == self.spec_value()),
            !self.spec_confined_to(current) ==> r is None,
    {
        if current == self.thread {
            Some(&*self.arc)
        } else {
            None
        }
    }

    /// Dereference for callers that already stand on the creating thread.
    pub fn deref(&self, current: u64) -> (r: &T)
        requires
            self.spec_confined_to(current),
        ensures
            *r == self.spec_value(),
    {
        &*self.arc
    }

    /// Recovers the value when this handle holds the only reference, else
    /// hands the handle back unchanged.
    pub fn try_unwrap(self) -> (r: Result<T, Self>)
        ensures
            r matches Ok(v) ==> v == self.spec_value(),
            r matches Err(e) ==> e.spec_value() == self.spec_value() && e.spec_thread()
                == self.spec_thread(),
    {
        let thread = self.thread;
        match arc_try_unwrap(self.arc) {
            Ok(v) => Ok(v),
            Err(a) => Err(Starc { arc: a, thread }),
        }
    }

    /// Mutable access to the value when this handle holds the only
    /// reference, else nothing.
    pub fn get_mut(this: &mut Starc<T>) -> (r: Option<&mut T>)
        ensures
            r matches Some(v) ==> *v == old(this).spec_value() && final(this).spec_value()
                == *final(v) && final(this).spec_thread() == old(this).spec_thread(),
            r is None ==> final(this).spec_value() == old(this).spec_value()
                && final(this).spec_thread() == old(this).spec_thread(),
    {
        arc_get_mut(&mut this.arc)
    }
}

impl<T> Clone for Starc<T> {
    /// Cloning shares the value and keeps the creating thread: the clone is
    /// confined exactly as the original is.
    fn clone(&self) -> (r: Self)
        ensures
            r.spec_value() == self.spec_value(),
            r.spec_thread() == self.spec_thread(),
    {
        Starc { arc: Arc::clone(&self.arc), thread: self.thread }
    }
}

} // verus!
