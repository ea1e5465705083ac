use vstd::prelude::*;

verus! {

/// The position that an index stands for in a sequence of `len` items: a
/// negative index counts from the end.
pub open spec fn wrap_index(index: int, len: int) -> int {
    if index < 0 {
        index + len
    } else {
        index
    }
}

/// Whether `index` stands for a position inside a sequence of `len` items.
pub open spec fn wrapped_in_bounds(index: int, len: int) -> bool {
    0 <= wrap_index(index, len) < len
}

/// Indexing where a negative index counts from the end.
pub trait IndexWrapped {
    type Output;

    /// The items, in order.
    spec fn items(&self) -> Seq<Self::Output>;

    fn index_wrapped(&self, index: i128) -> (r: &Self::Output)
        requires
            wrapped_in_bounds(index as int, self.items().len() as int),
        ensures
            *r == self.items()[wrap_index(index as int, self.items().len() as int)],
    ;
}

/// Mutable indexing where a negative index counts from the end.
pub trait IndexWrappedMut: IndexWrapped {
    fn index_wrapped_mut(&mut self, index: i128) -> (r: &mut <Self as IndexWrapped>::Output)
        requires
            wrapped_in_bounds(index as int, old(self).items().len() as int),
        ensures
            *r == old(self).items()[wrap_index(index as int, old(self).items().len() as int)],
            final(self).items() == old(self).items().update(
                wrap_index(index as int, old(self).items().len() as int),
                *final(r),
            ),
    ;
}

impl<T> IndexWrapped for Vec<T> {
    type Output = T;

    open spec fn items(&self) -> Seq<T> {
        self@
    }

    fn index_wrapped(&self, index: i128) -> (r: &T) {
        assert(self.items() == self@);
        let mut index: i128 = index;
        if index < 0 {
            index = index + self.len() as i128;
        }
        assert(0 <= index < self.len());
        let i: usize = index as usize;
        &self[i]
    }
}

impl<T> IndexWrappedMut for Vec<T> {
    fn index_wrapped_mut(&mut self, index: i128) -> (r: &mut T) {
        assert(self.items() == self@);
        let mut index: i128 = index;
        if index < 0 {
            index = index + self.len() as i128;
        }
        assert(0 <= index < self.len());
        let i: usize = index as usize;
        &mut self[i]
    }
}

impl<T, const N: usize> IndexWrapped for [T; N] {
    type Output = T;

    open spec fn items(&self) -> Seq<T> {
        self@
    }

    fn index_wrapped(&self, index: i128) -> (r: &T) {
        assert(self.items() == self@);
        let mut index: i128 = index;
        if index < 0 {
            index = index + N as i128;
        }
        assert(0 <= index < N);
        let i: usize = index as usize;
        &self[i]
    }
}

impl<T, const N: usize> IndexWrappedMut for [T; N] {
    fn index_wrapped_mut(&mut self, index: i128) -> (r: &mut T) {
        assert(self.items() == self@);
        let mut index: i128 = index;
        if index < 0 {
            index = index + N as i128;
        }
        assert(0 <= index < N);
        let i: usize = index as usize;
        &mut self[i]
    }
}

} // verus!
