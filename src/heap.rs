use vstd::prelude::*;

verus! {

/// Flag word for a plain allocation: the collector runs no finaliser.
pub const GC_ALLOC_FLAG_NONE: u32 = 0;

/// Flag word that registers an allocation for finalisation: when the object is
/// reclaimed, the collector calls the `__del__` method of the object whose
/// base header starts the allocation.
pub const GC_ALLOC_FLAG_HAS_FINALISER: u32 = 1;

/// Abstract state of a managed heap.
///
/// Objects are numbered from 1 in the order they were reserved; the number is
/// the object's raw address, so no object ever sits at the null address 0.
/// Every object is a contiguous run of elements; a single value is a run of one.
#[verifier::ext_equal]
pub struct HeapModel<T> {
    pub objects: Seq<Seq<T>>,
    pub flags: Seq<u32>,
    pub used: nat,
    pub capacity: nat,
}

impl<T> HeapModel<T> {
    pub open spec fn empty(capacity: nat) -> HeapModel<T> {
        HeapModel { objects: Seq::empty(), flags: Seq::empty(), used: 0, capacity }
    }

    pub open spec fn wf(self) -> bool {
        &&& self.objects.len() == self.flags.len()
        &&& self.used <= self.capacity
        &&& self.capacity <= usize::MAX
        &&& self.objects.len() <= usize::MAX
    }

    /// Bytes the collector can still hand out.
    pub open spec fn free(self) -> int {
        self.capacity - self.used
    }

    /// Whether a request for `size` bytes succeeds: the bytes are there and
    /// one more address can be handed out.
    pub open spec fn fits(self, size: int) -> bool {
        &&& size <= self.free()
        &&& self.objects.len() < usize::MAX
    }

    /// The address the next successful reservation returns.
    pub open spec fn next_addr(self) -> nat {
        self.objects.len() + 1
    }

    pub open spec fn contains(self, addr: int) -> bool {
        1 <= addr <= self.objects.len()
    }

    pub open spec fn object(self, addr: int) -> Seq<T> {
        self.objects[addr - 1]
    }

    pub open spec fn flags_of(self, addr: int) -> u32 {
        self.flags[addr - 1]
    }

    /// The address holds exactly one value.
    pub open spec fn holds_value(self, addr: int) -> bool {
        self.contains(addr) && self.object(addr).len() == 1
    }

    pub open spec fn value(self, addr: int) -> T {
        self.object(addr)[0]
    }

    /// The heap after a new object `obj` of `size` bytes was placed at
    /// `next_addr()` with the flag word `flags`.
    pub open spec fn place(self, obj: Seq<T>, size: nat, flags: u32) -> HeapModel<T> {
        HeapModel {
            objects: self.objects.push(obj),
            flags: self.flags.push(flags),
            used: self.used + size,
            capacity: self.capacity,
        }
    }

    /// The heap with the object at `addr` replaced by `obj`.
    pub open spec fn with_object(self, addr: int, obj: Seq<T>) -> HeapModel<T> {
        HeapModel { objects: self.objects.update(addr - 1, obj), ..self }
    }

    /// The heap after `x` was written into the single value at `addr`.
    pub open spec fn store(self, addr: int, x: T) -> HeapModel<T> {
        self.with_object(addr, seq![x])
    }
}

/// A heap managed by a tracing collector, holding objects made of elements of
/// type `T`.
///
/// The heap hands out space against a fixed byte budget and never moves or
/// frees an object on its own; reclaiming unreachable objects is the
/// collector's business and is not modelled here.
pub struct GcHeap<T> {
    objects: Vec<Vec<T>>,
    flags: Vec<u32>,
    used: usize,
    capacity: usize,
}

impl<T> View for GcHeap<T> {
    type V = HeapModel<T>;

    closed spec fn view(&self) -> HeapModel<T> {
        HeapModel {
            objects: self.objects@.map_values(|o: Vec<T>| o@),
            flags: self.flags@,
            used: self.used as nat,
            capacity: self.capacity as nat,
        }
    }
}

impl<T> GcHeap<T> {
    pub open spec fn wf(&self) -> bool {
        self@.wf()
    }

    /// An empty heap that can hand out `capacity` bytes in all.
    pub fn new(capacity: usize) -> (r: Self)
        ensures
            r.wf(),
            r@ == HeapModel::<T>::empty(capacity as nat),
    {
        let r = GcHeap { objects: Vec::new(), flags: Vec::new(), used: 0, capacity };
        assert(r@.objects =~= Seq::<Seq<T>>::empty());
        r
    }

    /// Bytes the heap can hand out in all.
    pub fn capacity(&self) -> (r: usize)
        ensures
            r == self@.capacity,
    {
        self.capacity
    }

    /// Bytes handed out so far.
    pub fn used(&self) -> (r: usize)
        ensures
            r == self@.used,
    {
        self.used
    }

    /// Number of objects placed so far; also the highest address in use.
    pub fn object_count(&self) -> (r: usize)
        ensures
            r == self@.objects.len(),
    {
        self.objects.len()
    }

    /// The flag word the object at `addr` was allocated with.
    pub fn flags_at(&self, addr: usize) -> (r: u32)
        requires
            self.wf(),
            self@.contains(addr as int),
        ensures
            r == self@.flags_of(addr as int),
    {
        self.flags[addr - 1]
    }

    /// The collector's allocation primitive: books `size` bytes under the flag
    /// word `flags` and returns the address of a fresh, still empty object, or
    /// `None` when the heap is exhausted. Nothing changes on `None`.
    pub(crate) fn reserve(&mut self, size: usize, flags: u32) -> (r: Option<usize>)
        requires
            old(self).wf(),
        ensures
            final(self).wf(),
            r is Some <==> old(self)@.fits(size as int),
            r is Some ==> r->Some_0 == old(self)@.next_addr() && final(self)@ == old(self)@.place(
                Seq::empty(),
                size as nat,
                flags,
            ),
            r is None ==> final(self)@ == old(self)@,
    {
        if size > self.capacity - self.used || self.objects.len() == usize::MAX {
            return None;
        }
        let ghost before = self@;
        self.objects.push(Vec::new());
        self.flags.push(flags);
        self.used = self.used + size;
        let ghost empty: Seq<T> = Seq::empty();
        assert(self@.objects =~= before.objects.push(empty));
        Some(self.objects.len())
    }

    /// Appends `x` to the object at `addr`, which must be reserved.
    pub(crate) fn push_element(&mut self, addr: usize, x: T)
        requires
            old(self).wf(),
            old(self)@.contains(addr as int),
        ensures
            final(self).wf(),
            final(self)@ == old(self)@.with_object(addr as int, old(self)@.object(addr as int).push(x)),
    {
        let ghost before = self@;
        self.objects[addr - 1].push(x);
        assert(self@.objects =~= before.objects.update(
            addr - 1,
            before.object(addr as int).push(x),
        ));
    }

    /// The elements of the object at `addr`.
    pub(crate) fn elements(&self, addr: usize) -> (r: &[T])
        requires
            self@.contains(addr as int),
        ensures
            r@ == self@.object(addr as int),
    {
        self.objects[addr - 1].as_slice()
    }

    /// Exclusive access to element `i` of the object at `addr`.
    pub(crate) fn element_mut(&mut self, addr: usize, i: usize) -> (r: &mut T)
        requires
            old(self).wf(),
            old(self)@.contains(addr as int),
            i < old(self)@.object(addr as int).len(),
        ensures
            *r == old(self)@.object(addr as int)[i as int],
            final(self)@ =~= old(self)@.with_object(
                addr as int,
                old(self)@.object(addr as int).update(i as int, *final(r)),
            ),
    {
        &mut self.objects[addr - 1][i]
    }

    /// Exclusive access to the elements of the object at `addr`.
    pub(crate) fn elements_mut(&mut self, addr: usize) -> (r: &mut [T])
        requires
            old(self).wf(),
            old(self)@.contains(addr as int),
        ensures
            r@ == old(self)@.object(addr as int),
            final(self)@ =~= old(self)@.with_object(addr as int, final(r)@),
    {
        self.objects[addr - 1].as_mut_slice()
    }
}

} // verus!
