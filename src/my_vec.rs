use vstd::prelude::*;

verus! {

/// A growable array.
///
/// `block` holds the elements that are present; it is allocated with room for
/// `capacity` elements, and is absent exactly when `capacity` is zero.
pub struct MyVec<T> {
    block: Option<Vec<T>>,
    size: usize,
    capacity: usize,
}

/// The capacity a full array grows to: twice the old one, and at least one.
pub open spec fn grown_capacity(capacity: nat) -> nat {
    if capacity == 0 {
        1
    } else {
        2 * capacity
    }
}

/// The capacity after one element is appended to an array of `len` elements
/// with `capacity` slots: it grows only when the array was full.
pub open spec fn capacity_after_push(len: nat, capacity: nat) -> nat {
    if len == capacity {
        grown_capacity(capacity)
    } else {
        capacity
    }
}

impl<T> View for MyVec<T> {
    type V = Seq<T>;

    /// The elements that are present, in order.
    closed spec fn view(&self) -> Seq<T> {
        match self.block {
            Some(b) => b@,
            None => Seq::empty(),
        }
    }
}

impl<T> MyVec<T> {
    #[verifier::type_invariant]
    spec fn well_formed(self) -> bool {
        &&& self.size <= self.capacity
        &&& self.block.is_some() <==> self.capacity > 0
        &&& self@.len() == self.size
    }

    /// The number of slots allocated in the block.
    pub closed spec fn spec_capacity(&self) -> usize {
        self.capacity
    }

    /// Creates an empty array that holds no block.
    pub fn new() -> (r: Self)
        ensures
            r@ == Seq::<T>::empty(),
            r.capacity() == 0,
    {
        MyVec { block: None, size: 0, capacity: 0 }
    }

    /// Creates an array that holds a clone of each of `values`, in order, in a
    /// block of exactly as many slots; no block when `values` is empty.
    pub fn from_values(values: &[T]) -> (r: Self) where T: Clone
        ensures
            r@.len() == values@.len(),
            r.capacity() == values@.len(),
            forall|i: int| 0 <= i < values@.len() ==> cloned(values@[i], #[trigger] r@[i]),
    {
        let n = values.len();
        if n == 0 {
            return Self::new();
        }
        let mut block = Self::allocate_block(n);
        let mut i: usize = 0;
        while i < n
            invariant
                n == values@.len(),
                i <= n,
                block@.len() == i,
                forall|j: int| 0 <= j < i ==> cloned(values@[j], #[trigger] block@[j]),
            decreases n - i,
        {
            block.push(values[i].clone());
            i += 1;
        }
        MyVec { block: Some(block), size: n, capacity: n }
    }

    /// The number of elements present.
    pub fn size(&self) -> (r: usize)
        ensures
            r == self@.len(),
            r <= self.capacity(),
    {
        proof {
            use_type_invariant(self);
        }
        self.size
    }

    /// The number of slots allocated.
    #[verifier::when_used_as_spec(spec_capacity)]
    pub fn capacity(&self) -> (r: usize)
        ensures
            r == self.capacity(),
    {
        self.capacity
    }

    /// Allocates an empty block with room for `capacity` elements.
    fn allocate_block(capacity: usize) -> (r: Vec<T>)
        ensures
            r@ == Seq::<T>::empty(),
    {
        Vec::with_capacity(capacity)
    }

    /// Moves the elements into a new block of `new_capacity` slots, in order,
    /// and adopts it; the old block is released last.
    fn grow_to(&mut self, new_capacity: usize)
        requires
            old(self)@.len() <= new_capacity,
            0 < new_capacity,
        ensures
            final(self)@ == old(self)@,
            final(self).capacity() == new_capacity,
    {
        proof {
            use_type_invariant(&*self);
        }
        let mut new_block = Self::allocate_block(new_capacity);
        let mut current = MyVec::new();
        std::mem::swap(self, &mut current);
        proof {
            use_type_invariant(&current);
        }
        let MyVec { block: old_block, size, capacity: _ } = current;
        match old_block {
            Some(mut old_block) => {
                new_block.append(&mut old_block);
                *self = MyVec { block: Some(new_block), size, capacity: new_capacity };
                // `old_block` is empty now, and its storage is released here.
            },
            None => {
                *self = MyVec { block: Some(new_block), size, capacity: new_capacity };
            },
        }
    }

    /// Makes room for at least `new_capacity` elements. When that is more than
    /// the capacity, the elements move to a block of exactly `new_capacity`
    /// slots; otherwise nothing changes.
    pub fn reserve(&mut self, new_capacity: usize)
        ensures
            final(self)@ == old(self)@,
            new_capacity <= old(self).capacity() ==> *final(self) == *old(self),
            old(self).capacity() < new_capacity ==> final(self).capacity() == new_capacity,
    {
        proof {
            use_type_invariant(&*self);
        }
        if self.capacity < new_capacity {
            self.grow_to(new_capacity);
        }
    }

    /// The element at `index`, which must be present.
    pub fn get(&self, index: usize) -> (r: &T)
        requires
            index < self@.len(),
        ensures
            *r == self@[index as int],
    {
        proof {
            use_type_invariant(self);
        }
        &self.block.as_ref().unwrap()[index]
    }

    /// Mutable access to the element at `index`, which must be present.
    pub fn get_mut(&mut self, index: usize) -> (r: &mut T)
        requires
            index < old(self)@.len(),
        ensures
            *r == old(self)@[index as int],
            final(self)@ == old(self)@.update(index as int, *final(r)),
            final(self).capacity() == old(self).capacity(),
        no_unwind
    {
        proof {
            use_type_invariant(&*self);
        }
        Self::slot_mut(&mut self.block, index)
    }

    /// Mutable access to slot `index` of a present block.
    fn slot_mut(block: &mut Option<Vec<T>>, index: usize) -> (r: &mut T)
        requires
            old(block).is_some(),
            index < old(block).unwrap()@.len(),
        ensures
            *r == old(block).unwrap()@[index as int],
            final(block).is_some(),
            final(block).unwrap()@ == old(block).unwrap()@.update(index as int, *final(r)),
        no_unwind
    {
        match block {
            Some(b) => &mut b[index],
            None => unreached(),
        }
    }

    /// Appends `value`, first moving the elements into a block of twice the
    /// capacity (at least one slot) when the array is full.
    pub fn push(&mut self, value: T)
        requires
            capacity_after_push(old(self)@.len(), old(self).capacity() as nat) <= usize::MAX,
        ensures
            final(self)@ == old(self)@.push(value),
            final(self).capacity() as nat == capacity_after_push(
                old(self)@.len(),
                old(self).capacity() as nat,
            ),
    {
        proof {
            use_type_invariant(&*self);
        }
        if self.size == self.capacity {
            let new_capacity: usize = if self.capacity == 0 {
                1
            } else {
                self.capacity * 2
            };
            self.grow_to(new_capacity);
        }
        proof {
            use_type_invariant(&*self);
        }
        let mut current = MyVec::new();
        std::mem::swap(self, &mut current);
        proof {
            use_type_invariant(&current);
        }
        let MyVec { block, size, capacity } = current;
        let mut block = block.unwrap();
        block.push(value);
        *self = MyVec { block: Some(block), size: size + 1, capacity };
    }
}

impl<T> std::ops::Index<usize> for MyVec<T> {
    type Output = T;

    fn index(&self, index: usize) -> (r: &T)
        ensures
            *r == self@[index as int],
    {
        self.get(index)
    }
}

impl<T> vstd::std_specs::core::IndexSpecImpl<usize> for MyVec<T> {
    open spec fn index_req(&self, index: &usize) -> bool {
        *index < self@.len()
    }
}

impl<T> Default for MyVec<T> {
    fn default() -> (r: Self)
        ensures
            r@ == Seq::<T>::empty(),
            r.capacity() == 0,
    {
        Self::new()
    }
}

} // verus!
