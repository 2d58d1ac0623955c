use vstd::prelude::*;

use crate::error::Error;
use crate::heap::{GcHeap, HeapModel, GC_ALLOC_FLAG_HAS_FINALISER, GC_ALLOC_FLAG_NONE};

verus! {

/// Bytes taken by a run of `len` elements of type `T`.
pub open spec fn slice_bytes<T>(len: nat) -> nat {
    len * vstd::layout::size_of::<T>()
}

/// `x` is a value that `T::default()` may return.
pub open spec fn is_default<T: Default>(x: T) -> bool {
    call_ensures(T::default, (), x)
}

/// A handle to a value on a garbage-collected heap.
///
/// A handle is the value's raw address and nothing more: copying it copies the
/// address, never the value, and dropping it frees nothing. `T` may be a slice
/// type, in which case the handle reaches a run of elements.
pub struct Gc<T: ?Sized> {
    addr: usize,
    marker: core::marker::PhantomData<T>,
}

impl<T: ?Sized> Clone for Gc<T> {
    fn clone(&self) -> (r: Self)
        ensures
            r == *self,
    {
        *self
    }
}

impl<T: ?Sized> Copy for Gc<T> {
}

impl<T: ?Sized> Gc<T> {
    /// The raw address the handle holds.
    pub closed spec fn view(&self) -> usize {
        self.addr
    }

    #[verifier::type_invariant]
    spec fn inv(&self) -> bool {
        self.addr != 0
    }

    /// Rebuilds a handle from a raw address.
    ///
    /// The address should come from `into_raw`, from the interpreter, or from
    /// one of the collector's roots; the heap methods that read through the
    /// handle ask for the address to be allocated there.
    pub fn from_raw(ptr: usize) -> (r: Self)
        requires
            ptr != 0,
        ensures
            r@ == ptr,
    {
        Gc { addr: ptr, marker: core::marker::PhantomData }
    }

    /// The raw address of the handle. The value behind it stays where it is.
    pub fn into_raw(this: Self) -> (r: usize)
        ensures
            r == this@,
            r != 0,
    {
        proof {
            use_type_invariant(&this);
        }
        this.addr
    }
}

impl<T> Gc<T> {
    /// Places `v` on the heap under the flag word `flags`.
    ///
    /// Fails with `AllocationFailed`, and leaves the heap as it was, when the
    /// heap has no room for a `T`.
    fn allocate(heap: &mut GcHeap<T>, v: T, flags: u32) -> (r: Result<Self, Error>)
        requires
            old(heap).wf(),
        ensures
            final(heap).wf(),
            r is Ok <==> old(heap)@.fits(vstd::layout::size_of::<T>() as int),
            r matches Ok(g) ==> g@ == old(heap)@.next_addr() && final(heap)@ == old(heap)@.place(
                seq![v],
                vstd::layout::size_of::<T>(),
                flags,
            ),
            r matches Err(e) ==> e == Error::AllocationFailed && final(heap)@ == old(heap)@,
    {
        let size = core::mem::size_of::<T>();
        match heap.reserve(size, flags) {
            None => Err(Error::AllocationFailed),
            Some(raw) => {
                heap.push_element(raw, v);
                assert(heap@ =~= old(heap)@.place(seq![v], size as nat, flags));
                Ok(Self::from_raw(raw))
            },
        }
    }

    /// Places `v` on the heap with no finaliser registered.
    pub fn new(heap: &mut GcHeap<T>, v: T) -> (r: Result<Self, Error>)
        requires
            old(heap).wf(),
        ensures
            final(heap).wf(),
            r is Ok <==> old(heap)@.fits(vstd::layout::size_of::<T>() as int),
            r matches Ok(g) ==> g@ == old(heap)@.next_addr() && final(heap)@ == old(heap)@.place(
                seq![v],
                vstd::layout::size_of::<T>(),
                GC_ALLOC_FLAG_NONE,
            ),
            r matches Err(e) ==> e == Error::AllocationFailed && final(heap)@ == old(heap)@,
    {
        Self::allocate(heap, v, GC_ALLOC_FLAG_NONE)
    }

    /// Places `v` on the heap and registers it for finalisation.
    ///
    /// Only for interpreter objects whose first field is the object base
    /// header: the collector reads that header to find the `__del__` method it
    /// calls when the object is reclaimed. The caller vouches for the shape.
    pub fn new_with_custom_finaliser(heap: &mut GcHeap<T>, v: T) -> (r: Result<Self, Error>)
        requires
            old(heap).wf(),
        ensures
            final(heap).wf(),
            r is Ok <==> old(heap)@.fits(vstd::layout::size_of::<T>() as int),
            r matches Ok(g) ==> g@ == old(heap)@.next_addr() && final(heap)@ == old(heap)@.place(
                seq![v],
                vstd::layout::size_of::<T>(),
                GC_ALLOC_FLAG_HAS_FINALISER,
            ),
            r matches Err(e) ==> e == Error::AllocationFailed && final(heap)@ == old(heap)@,
    {
        Self::allocate(heap, v, GC_ALLOC_FLAG_HAS_FINALISER)
    }

    /// Shared access to the value behind the handle.
    ///
    /// The borrow of the heap keeps every other access out while the
    /// reference lives.
    pub fn as_ref<'a>(this: &Self, heap: &'a GcHeap<T>) -> (r: &'a T)
        requires
            heap@.holds_value(this@ as int),
        ensures
            *r == heap@.value(this@ as int),
    {
        &heap.elements(this.addr)[0]
    }

    /// Exclusive access to the value behind the handle. What is written
    /// through the reference is what every copy of the handle reads after.
    pub fn as_mut<'a>(this: &mut Self, heap: &'a mut GcHeap<T>) -> (r: &'a mut T)
        requires
            old(heap).wf(),
            old(heap)@.holds_value(old(this)@ as int),
        ensures
            *final(this) == *old(this),
            *r == old(heap)@.value(old(this)@ as int),
            final(heap)@ == old(heap)@.store(old(this)@ as int, *final(r)),
    {
        assert(forall|x: T| #[trigger] old(heap)@.object(this@ as int).update(0, x) =~= seq![x]);
        heap.element_mut(this.addr, 0)
    }
}

impl<T: Default> Gc<[T]> {
    /// Places a run of `len` default values on the heap, with no finaliser.
    ///
    /// The byte count `len * size_of::<T>()` is checked before the heap is
    /// asked: when it exceeds `isize::MAX`, the largest size any allocation
    /// may have, or the heap has no room for it, the result is
    /// `AllocationFailed` and the heap is left as it was.
    /// Otherwise every element is set, in index order, before the handle is
    /// returned.
    pub fn new_slice(heap: &mut GcHeap<T>, len: usize) -> (r: Result<Self, Error>)
        requires
            old(heap).wf(),
        ensures
            final(heap).wf(),
            r is Ok <==> slice_bytes::<T>(len as nat) <= isize::MAX && old(heap)@.fits(
                slice_bytes::<T>(len as nat) as int,
            ),
            r matches Ok(g) ==> {
                &&& g@ == old(heap)@.next_addr()
                &&& final(heap)@ == old(heap)@.place(
                    final(heap)@.object(g@ as int),
                    slice_bytes::<T>(len as nat),
                    GC_ALLOC_FLAG_NONE,
                )
                &&& final(heap)@.object(g@ as int).len() == len
                &&& forall|i: int|
                    0 <= i < len ==> is_default(#[trigger] final(heap)@.object(g@ as int)[i])
            },
            r matches Err(e) ==> e == Error::AllocationFailed && final(heap)@ == old(heap)@,
    {
        let size = match len.checked_mul(core::mem::size_of::<T>()) {
            Some(size) => size,
            None => return Err(Error::AllocationFailed),
        };
        if size > isize::MAX as usize {
            return Err(Error::AllocationFailed);
        }
        let raw = match heap.reserve(size, GC_ALLOC_FLAG_NONE) {
            Some(raw) => raw,
            None => return Err(Error::AllocationFailed),
        };
        let ghost reserved = heap@;
        let mut i: usize = 0;
        while i < len
            invariant
                heap.wf(),
                i <= len,
                reserved.contains(raw as int),
                heap@ == reserved.with_object(raw as int, heap@.object(raw as int)),
                heap@.object(raw as int).len() == i,
                forall|j: int| 0 <= j < i ==> is_default(#[trigger] heap@.object(raw as int)[j]),
            decreases len - i,
        {
            let d = T::default();
            heap.push_element(raw, d);
            assert(heap@ =~= reserved.with_object(raw as int, heap@.object(raw as int)));
            i += 1;
        }
        assert(heap@ =~= old(heap)@.place(heap@.object(raw as int), size as nat, GC_ALLOC_FLAG_NONE));
        Ok(Self::from_raw(raw))
    }
}

impl<T> Gc<[T]> {
    /// Shared access to the elements behind the handle.
    pub fn as_slice<'a>(this: &Self, heap: &'a GcHeap<T>) -> (r: &'a [T])
        requires
            heap@.contains(this@ as int),
        ensures
            r@ == heap@.object(this@ as int),
    {
        heap.elements(this.addr)
    }

    /// Exclusive access to the elements behind the handle. What is written
    /// through the slice is what every copy of the handle reads after.
    pub fn as_mut_slice<'a>(this: &mut Self, heap: &'a mut GcHeap<T>) -> (r: &'a mut [T])
        requires
            old(heap).wf(),
            old(heap)@.contains(old(this)@ as int),
        ensures
            *final(this) == *old(this),
            r@ == old(heap)@.object(old(this)@ as int),
            final(heap)@ == old(heap)@.with_object(old(this)@ as int, final(r)@),
    {
        heap.elements_mut(this.addr)
    }
}

} // verus!

verus! {

/// Reading through the handle that placing a value returned gives that value
/// back.
pub proof fn lemma_read_after_new<T>(heap: HeapModel<T>, v: T, size: nat, flags: u32)
    requires
        heap.wf(),
        heap.fits(size as int),
    ensures
        heap.place(seq![v], size, flags).wf(),
        heap.place(seq![v], size, flags).holds_value(heap.next_addr() as int),
        heap.place(seq![v], size, flags).value(heap.next_addr() as int) == v,
{
}

/// A handle rebuilt from the raw address of another handle is that handle,
/// so it reaches the same value.
pub proof fn lemma_raw_round_trip<T: ?Sized>(h: Gc<T>, rebuilt: Gc<T>)
    requires
        rebuilt@ == h@,
    ensures
        rebuilt == h,
{
}

/// Copies of a handle share the value: what is written through one copy is
/// what the other reads.
pub proof fn lemma_copies_alias<T>(heap: HeapModel<T>, h: Gc<T>, copy: Gc<T>, x: T)
    requires
        heap.holds_value(h@ as int),
        copy == h,
    ensures
        heap.store(h@ as int, x).holds_value(copy@ as int),
        heap.store(h@ as int, x).value(copy@ as int) == x,
{
}

/// Copies of a slice handle share the elements: an element written through
/// one copy is what the other reads, and the other elements stay as they were.
pub proof fn lemma_slice_copies_alias<T>(
    heap: HeapModel<T>,
    h: Gc<[T]>,
    copy: Gc<[T]>,
    i: int,
    x: T,
)
    requires
        heap.contains(h@ as int),
        0 <= i < heap.object(h@ as int).len(),
        copy == h,
    ensures
        ({
            let after = heap.with_object(h@ as int, heap.object(h@ as int).update(i, x));
            &&& after.object(copy@ as int).len() == heap.object(h@ as int).len()
            &&& after.object(copy@ as int)[i] == x
            &&& forall|j: int|
                0 <= j < heap.object(h@ as int).len() && j != i ==> after.object(copy@ as int)[j]
                    == heap.object(h@ as int)[j]
        }),
{
}

} // verus!
