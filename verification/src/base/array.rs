//! A typed view over an array that nginx owns and grows.
//!
//! nginx keeps such an array as a header (where the elements start, how many
//! there are) and storage taken from a pool. Appending may move the storage,
//! so nothing read through the header before an append describes the array
//! after it. The view holds the elements as they were read through the header,
//! and takes in what nginx answered to each append.
use vstd::prelude::*;

use crate::base::Addr;

verus! {

/// The elements of one nginx array, in order, and the address of its header.
///
/// `T` should have no drop logic: nginx releases the storage without running
/// anything.
pub struct Array<T> {
    array: Addr,
    items: Vec<T>,
}

impl<T> View for Array<T> {
    type V = Seq<T>;

    closed spec fn view(&self) -> Seq<T> {
        self.items@
    }
}

impl<T> Array<T> {
    /// The address of the array's header.
    pub closed spec fn header(&self) -> Addr {
        self.array
    }

    /// A view over the array whose header lies at `array` and counts `items`.
    ///
    /// The caller vouches that nothing else reads or appends to the array
    /// while the view lives.
    pub fn new(array: Addr, items: Vec<T>) -> (view: Self)
        ensures
            view.header() == array,
            view@ == items@,
    {
        Array { array, items }
    }

    /// The address of the array's header.
    pub fn as_ptr(&self) -> (array: Addr)
        ensures
            array == self.header(),
    {
        self.array
    }

    /// Takes in an append: `slot` is what nginx answered when asked for room
    /// for one more element, null if it had none. On null nothing changes and
    /// the append has failed; otherwise `value` is the new last element.
    pub fn push(&mut self, value: T, slot: usize) -> (res: Result<(), ()>)
        ensures
            final(self).header() == old(self).header(),
            slot == 0 ==> res is Err && final(self)@ == old(self)@,
            slot != 0 ==> res is Ok && final(self)@ == old(self)@.push(value),
    {
        if slot == 0 {
            return Err(());
        }
        self.items.push(value);
        Ok(())
    }

    /// How many elements the header counts.
    pub fn len(&self) -> (n: usize)
        ensures
            n == self@.len(),
    {
        self.items.len()
    }

    /// The element at `index`, or nothing where the array ends before it.
    pub fn get(&self, index: usize) -> (item: Option<&T>)
        ensures
            index < self@.len() ==> item == Some(&self@[index as int]),
            index >= self@.len() ==> item is None,
    {
        if index < self.items.len() {
            Some(&self.items[index])
        } else {
            None
        }
    }

    /// The same array without its first element, or nothing if it has none.
    /// For a directive's arguments the first element is the directive's own
    /// name.
    pub fn skip_first(self) -> (rest: Option<Self>)
        ensures
            self@.len() == 0 ==> rest is None,
            self@.len() > 0 ==> rest is Some && rest->0.header() == self.header() && rest->0@
                == self@.skip(1),
    {
        let Array { array, mut items } = self;
        if items.len() == 0 {
            return None;
        }
        let _ = items.remove(0);
        assert(items@ =~= self@.skip(1));
        Some(Array { array, items })
    }
}

impl<T> core::ops::Deref for Array<T> {
    type Target = [T];

    /// The elements as a slice, for as long as nothing is appended.
    fn deref(&self) -> (slice: &[T])
        ensures
            slice@ == self@,
    {
        self.items.as_slice()
    }
}

impl<T> core::ops::DerefMut for Array<T> {
    /// The elements as a slice through which they can be replaced, not
    /// added to.
    fn deref_mut(&mut self) -> (slice: &mut [T])
        ensures
            slice@ == old(self)@,
            final(slice)@ == final(self)@,
            final(self).header() == old(self).header(),
    {
        self.items.as_mut_slice()
    }
}

/// An append outdates every slice taken before it: the array then holds one
/// element more than any such slice, so the two differ, wherever nginx has
/// put the storage.
pub proof fn lemma_push_outdates_slices<T>(before: Seq<T>, value: T)
    ensures
        before.push(value).len() == before.len() + 1,
        before.push(value) != before,
        before.push(value).take(before.len() as int) == before,
        before.push(value).last() == value,
{
    assert(before.push(value).take(before.len() as int) =~= before);
}

} // verus!
