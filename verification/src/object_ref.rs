//! Object references — handles to results in the Ray object store.
//!
//! An object ID is kept as raw bytes: Ray's binary IDs may contain NUL bytes.

use std::marker::PhantomData;

use vstd::prelude::*;
use vstd::slice::slice_to_vec;
use vstd::std_specs::convert::FromSpec;

verus! {

/// A reference to an object stored in the Ray object store, typed by the
/// value it refers to. `is_xlang` marks results produced by another language
/// runtime (Python), whose bytes may carry an XLANG header.
#[derive(Debug)]
pub struct ObjectRef<T> {
    id: Vec<u8>,
    is_xlang: bool,
    _marker: PhantomData<T>,
}

impl<T> View for ObjectRef<T> {
    /// The object ID and the cross-language mark.
    type V = (Seq<u8>, bool);

    closed spec fn view(&self) -> (Seq<u8>, bool) {
        (self.id@, self.is_xlang)
    }
}

impl<T> ObjectRef<T> {
    /// A reference to the object with binary ID `id`.
    pub fn from_id(id: Vec<u8>) -> (r: Self)
        ensures
            r@ == (id@, false),
    {
        ObjectRef { id, is_xlang: false, _marker: PhantomData }
    }

    /// A reference to a cross-language (Python) result with binary ID `id`.
    pub fn from_id_xlang(id: Vec<u8>) -> (r: Self)
        ensures
            r@ == (id@, true),
    {
        ObjectRef { id, is_xlang: true, _marker: PhantomData }
    }

    /// The object's binary ID.
    pub fn id(&self) -> (r: &[u8])
        ensures
            r@ == self@.0,
    {
        self.id.as_slice()
    }

    /// Whether the object was produced by another language runtime.
    pub fn is_xlang(&self) -> (r: bool)
        ensures
            r == self@.1,
    {
        self.is_xlang
    }

    /// Casts the phantom type parameter; the ID and the mark stay.
    pub fn cast<U>(self) -> (r: ObjectRef<U>)
        ensures
            r@ == self@,
    {
        ObjectRef { id: self.id, is_xlang: self.is_xlang, _marker: PhantomData }
    }

}

impl<T> Clone for ObjectRef<T> {
    /// A second reference to the same object.
    fn clone(&self) -> (r: Self)
        ensures
            r@ == self@,
    {
        ObjectRef {
            id: slice_to_vec(self.id.as_slice()),
            is_xlang: self.is_xlang,
            _marker: PhantomData,
        }
    }
}

impl<T> From<Vec<u8>> for ObjectRef<T> {
    fn from(id: Vec<u8>) -> (r: Self) {
        ObjectRef { id, is_xlang: false, _marker: PhantomData }
    }
}

impl<T> vstd::std_specs::convert::FromSpecImpl<Vec<u8>> for ObjectRef<T> {
    open spec fn obeys_from_spec() -> bool {
        true
    }

    closed spec fn from_spec(id: Vec<u8>) -> Self {
        ObjectRef { id, is_xlang: false, _marker: PhantomData }
    }
}

impl<T> From<ObjectRef<T>> for Vec<u8> {
    fn from(obj: ObjectRef<T>) -> (r: Vec<u8>) {
        obj.id
    }
}

impl<T> vstd::std_specs::convert::FromSpecImpl<ObjectRef<T>> for Vec<u8> {
    open spec fn obeys_from_spec() -> bool {
        true
    }

    closed spec fn from_spec(obj: ObjectRef<T>) -> Self {
        obj.id
    }
}

/// Converting an ID into a reference gives a plain (not cross-language)
/// reference to that ID, and converting it back gives the same ID.
pub proof fn lemma_id_round_trip<T>(id: Vec<u8>)
    ensures
        <ObjectRef<T> as FromSpec<Vec<u8>>>::from_spec(id)@ == (id@, false),
        <Vec<u8> as FromSpec<ObjectRef<T>>>::from_spec(
            <ObjectRef<T> as FromSpec<Vec<u8>>>::from_spec(id),
        ) == id,
{
}

} // verus!
