//! Objects shared with plugins, and the registry of their handles.
//!
//! OFX handles are opaque pointers owned by the host. Objects that a
//! handle can refer to are kept in an `Object` (shared, lockable). A
//! handle is the address of the object; instead of dereferencing it,
//! the host looks the handle up in a registry, so that unknown
//! handles are detected rather than followed.

use vstd::prelude::*;
use std::collections::HashMap;
use std::sync::{Arc, Mutex};

verus! {

#[verifier::external_type_specification]
#[verifier::external_body]
#[verifier::reject_recursive_types(T)]
pub struct ExMutex<T: ?Sized>(Mutex<T>);

/// Holder for objects that can cross the API boundary: a shared,
/// lockable value. Whoever uses the value locks the mutex in the
/// field; the library itself never does.
#[derive(Debug)]
#[verifier::reject_recursive_types(T)]
pub struct Object<T>(pub Arc<Mutex<T>>);

/// Wraps `std::sync::Mutex::new`: a new unlocked mutex holding `value`.
/// Nothing is stated of the result: these contracts give a mutex's
/// contents no model.
#[verifier::external_body]
fn new_mutex<T>(value: T) -> Mutex<T> {
    Mutex::new(value)
}

impl<T> Clone for Object<T> {
    /// Another reference to the same object.
    fn clone(&self) -> (r: Self)
        ensures
            r == *self,
    {
        Object(self.0.clone())
    }
}

/// Types that can be wrapped in an `Object`.
pub trait IntoObject: Sized {
    /// Wraps the value in a new `Object`. Nothing is stated of the
    /// object's contents: these contracts give a mutex's contents no
    /// model.
    fn into_object(self) -> Object<Self> {
        Object(Arc::new(new_mutex(self)))
    }
}

impl IntoObject for crate::properties::PropertySet {

}

/// Keeps track of the valid handles of one type of object.
///
/// Each handle (the address of an object) maps to a weak reference `W`
/// to the object, so that handles to dead objects can be detected too.
pub struct HandleManager<W> {
    handle_to_ptr: HashMap<usize, W>,
}

impl<W> View for HandleManager<W> {
    type V = Map<usize, W>;

    closed spec fn view(&self) -> Map<usize, W> {
        self.handle_to_ptr@
    }
}

impl<W> HandleManager<W> {
    /// A registry with no handles.
    pub fn new() -> (r: Self)
        ensures
            r@ == Map::<usize, W>::empty(),
    {
        HandleManager { handle_to_ptr: HashMap::new() }
    }

    /// Registers the object at `address`, reached through `weak`, and
    /// returns its handle (the address itself).
    pub fn get_handle(&mut self, address: usize, weak: W) -> (h: usize)
        ensures
            h == address,
            final(self)@ == old(self)@.insert(h, weak),
    {
        proof {
            broadcast use vstd::std_specs::hash::group_hash_axioms;
        }
        self.handle_to_ptr.insert(address, weak);
        address
    }

    /// The weak reference registered for `handle`; `None` for a handle
    /// that was never issued.
    pub fn lookup(&self, handle: usize) -> (r: Option<&W>)
        ensures
            match r {
                Some(w) => self@.contains_key(handle) && *w == self@[handle],
                None => !self@.contains_key(handle),
            },
    {
        proof {
            broadcast use vstd::std_specs::hash::group_hash_axioms;
        }
        self.handle_to_ptr.get(&handle)
    }

    /// True when `handle` was issued.
    pub fn is_valid(&self, handle: usize) -> (r: bool)
        ensures
            r == self@.contains_key(handle),
    {
        self.lookup(handle).is_some()
    }
}

/// Handles stay valid: registering an object keeps every handle
/// issued before valid and pointing to the same object, and makes the
/// new handle valid.
pub proof fn law_handles_persist<W>(m: Map<usize, W>, address: usize, weak: W)
    ensures
        m.insert(address, weak).contains_key(address),
        m.insert(address, weak)[address] == weak,
        forall|h: usize| #[trigger] m.contains_key(h) ==> m.insert(address, weak).contains_key(h),
        forall|h: usize|
            h != address && #[trigger] m.contains_key(h) ==> m.insert(address, weak)[h] == m[h],
{
}

} // verus!
