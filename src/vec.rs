use vstd::prelude::*;
use vstd::std_specs::iter::IteratorSpec;

verus! {

/// The storage after `insert(i, v)` on a vector of length `len`: the
/// elements at `[i, len)` move up by one place and `v` is written at `i`.
/// Where `i` lies past `len`, nothing moves and only `v` is written.
pub open spec fn storage_after_insert<T>(s: Seq<T>, len: int, i: int, v: T) -> Seq<T> {
    Seq::new(
        s.len(),
        |k: int|
            if k < i {
                s[k]
            } else if k == i {
                v
            } else if k <= len {
                s[k - 1]
            } else {
                s[k]
            },
    )
}

/// The storage after `remove(i)` on a vector of length `len`: the elements
/// at `(i, len)` move down by one place; the last one is left where it was.
pub open spec fn storage_after_remove<T>(s: Seq<T>, len: int, i: int) -> Seq<T> {
    Seq::new(s.len(), |k: int| if i <= k < len - 1 { s[k + 1] } else { s[k] })
}

/// The storage after copying `src` into `s` from position `at` on.
pub open spec fn storage_after_copy<T>(s: Seq<T>, at: int, src: Seq<T>) -> Seq<T> {
    Seq::new(s.len(), |k: int| if at <= k < at + src.len() { src[k - at] } else { s[k] })
}

/// Relies on `std::vec::Vec::as_mut_slice`: the slice covers the vector's
/// elements, what is written through it lands in the vector, and, a slice
/// being of fixed length, writes through it cannot change its length.
#[verifier::external_body]
fn whole_mut_slice<T>(v: &mut std::vec::Vec<T>) -> (r: &mut [T])
    ensures
        r@ == old(v)@,
        final(v)@ == final(r)@,
        final(r)@.len() == r@.len(),
{
    v.as_mut_slice()
}

/// The contents after pushing each of `values`, in order, onto contents `s`.
pub open spec fn pushed_all<T>(s: Seq<T>, values: Seq<T>) -> Seq<T>
    decreases values.len(),
{
    if values.len() == 0 {
        s
    } else {
        pushed_all(s, values.drop_last()).push(values.last())
    }
}

/// The values that `n` pops return from contents `s`, in the order they come
/// out; a pop on empty contents returns none and adds nothing here.
pub open spec fn popped<T>(s: Seq<T>, n: nat) -> Seq<T>
    decreases n,
{
    if n == 0 || s.len() == 0 {
        Seq::empty()
    } else {
        seq![s.last()] + popped(s.drop_last(), (n - 1) as nat)
    }
}

/// The contents left after `n` pops from contents `s`.
pub open spec fn left_after_pops<T>(s: Seq<T>, n: nat) -> Seq<T> {
    if n <= s.len() {
        s.subrange(0, s.len() - n)
    } else {
        Seq::empty()
    }
}

proof fn lemma_pushed_all_onto_empty<T>(values: Seq<T>)
    ensures
        pushed_all(Seq::empty(), values) == values,
    decreases values.len(),
{
    if values.len() > 0 {
        lemma_pushed_all_onto_empty(values.drop_last());
        assert(values.drop_last().push(values.last()) =~= values);
    }
}

proof fn lemma_popped_all<T>(s: Seq<T>)
    ensures
        popped(s, s.len()) == s.reverse(),
    decreases s.len(),
{
    if s.len() > 0 {
        lemma_popped_all(s.drop_last());
        assert(seq![s.last()] + s.drop_last().reverse() =~= s.reverse());
    }
}

/// Pushing `n` values onto an empty vector of capacity at least `n`, then
/// popping `n` times, returns the values in exactly the reverse order and
/// leaves the vector empty. Each push finds room: before the `k`-th push the
/// vector holds `k` elements, below the capacity.
pub proof fn lemma_push_pop_reverse<T>(values: Seq<T>, capacity: nat)
    requires
        values.len() <= capacity,
    ensures
        forall|k: nat|
            k < values.len() ==> #[trigger] pushed_all(Seq::empty(), values.take(k as int)).len()
                < capacity,
        pushed_all(Seq::empty(), values) == values,
        popped(pushed_all(Seq::empty(), values), values.len()) == values.reverse(),
        left_after_pops(pushed_all(Seq::empty(), values), values.len()).len() == 0,
{
    assert forall|k: nat| k < values.len() implies #[trigger] pushed_all(
        Seq::empty(),
        values.take(k as int),
    ).len() < capacity by {
        lemma_pushed_all_onto_empty(values.take(k as int));
    }
    lemma_pushed_all_onto_empty(values);
    lemma_popped_all(values);
}

/// A vector of at most `capacity()` elements living in a fixed storage region.
///
/// The storage never grows or shrinks. Only its first `len()` elements form
/// the vector; the rest holds unspecified, possibly stale, values.
pub struct Vec<T> {
    data: std::vec::Vec<T>,
    offset: usize,
}

impl<T: Copy> View for Vec<T> {
    type V = Seq<T>;

    /// The logical contents: the first `len()` elements of the storage.
    closed spec fn view(&self) -> Seq<T> {
        self.data@.subrange(0, self.offset as int)
    }
}

impl<T: Copy> Vec<T> {
    /// The logical length stays within the storage region.
    pub closed spec fn wf(&self) -> bool {
        self.offset <= self.data.len()
    }

    /// The whole storage region, elements past `len()` included.
    pub closed spec fn storage(&self) -> Seq<T> {
        self.data@
    }

    /// The number of elements the region holds.
    pub open spec fn spec_capacity(&self) -> nat {
        self.storage().len()
    }

    /// Wraps a storage region as an empty vector whose capacity is the
    /// region's length. The region's contents are kept as they are.
    pub fn new(data: std::vec::Vec<T>) -> (r: Self)
        ensures
            r.wf(),
            r@.len() == 0,
            r.storage() == data@,
    {
        Vec { data, offset: 0 }
    }

    /// The number of elements the region holds.
    pub fn capacity(&self) -> (r: usize)
        ensures
            r == self.spec_capacity(),
    {
        self.data.len()
    }

    /// The number of elements in the vector.
    pub fn len(&self) -> (r: usize)
        requires
            self.wf(),
        ensures
            r == self@.len(),
            r <= self.spec_capacity(),
            self@ == self.storage().subrange(0, r as int),
    {
        self.offset
    }

    /// Whether the vector holds no element.
    pub fn is_empty(&self) -> (r: bool)
        requires
            self.wf(),
        ensures
            r == (self@.len() == 0),
    {
        self.offset == 0
    }

    /// Appends `value` after the last element.
    pub fn push(&mut self, value: T)
        requires
            old(self).wf(),
            old(self)@.len() < old(self).spec_capacity(),
        ensures
            final(self).wf(),
            final(self)@ == old(self)@.push(value),
            final(self).storage() == old(self).storage().update(old(self)@.len() as int, value),
    {
        let i = self.offset;
        self.data.set(i, value);
        self.offset = i + 1;
        assert(self@ =~= old(self)@.push(value));
    }

    /// Inserts `element` at `index`, moving the elements at `[index, len())`
    /// up by one place. The index is checked against the capacity, not the
    /// length: an index past `len()` writes `element` there and still grows
    /// the vector by one, which then ends with the stale element at the old
    /// length.
    pub fn insert(&mut self, index: usize, element: T)
        requires
            old(self).wf(),
            old(self)@.len() < old(self).spec_capacity(),
            index < old(self).spec_capacity(),
        ensures
            final(self).wf(),
            final(self).storage() == storage_after_insert(
                old(self).storage(),
                old(self)@.len() as int,
                index as int,
                element,
            ),
            final(self)@.len() == old(self)@.len() + 1,
            index <= old(self)@.len() ==> final(self)@ == old(self)@.insert(index as int, element),
            index > old(self)@.len() ==> final(self)@ == old(self)@.push(
                old(self).storage()[old(self)@.len() as int],
            ),
    {
        let ghost s = self.data@;
        let len = self.offset;
        let mut j: usize = len;
        while j > index
            invariant
                self.offset == len,
                len < s.len(),
                index < s.len(),
                j <= len,
                index <= len ==> index <= j,
                index > len ==> j == len,
                self.data@.len() == s.len(),
                forall|k: int|
                    0 <= k < s.len() ==> #[trigger] self.data@[k] == if j < k <= len {
                        s[k - 1]
                    } else {
                        s[k]
                    },
            decreases j,
        {
            let moved = self.data[j - 1];
            self.data.set(j, moved);
            j = j - 1;
        }
        self.data.set(index, element);
        self.offset = len + 1;
        assert(self.data@ =~= storage_after_insert(s, len as int, index as int, element));
        if index <= len {
            assert(self@ =~= old(self)@.insert(index as int, element));
        } else {
            assert(self@ =~= old(self)@.push(s[len as int]));
        }
    }

    /// Removes and returns the element at `index`, moving the elements after
    /// it down by one place.
    pub fn remove(&mut self, index: usize) -> (r: T)
        requires
            old(self).wf(),
            index < old(self)@.len(),
        ensures
            final(self).wf(),
            r == old(self)@[index as int],
            final(self)@ == old(self)@.remove(index as int),
            final(self).storage() == storage_after_remove(
                old(self).storage(),
                old(self)@.len() as int,
                index as int,
            ),
    {
        let ghost s = self.data@;
        let len = self.offset;
        let element = self.data[index];
        let mut j: usize = index;
        while j + 1 < len
            invariant
                self.offset == len,
                len <= s.len(),
                index <= j < len,
                self.data@.len() == s.len(),
                forall|k: int|
                    0 <= k < s.len() ==> #[trigger] self.data@[k] == if index <= k < j {
                        s[k + 1]
                    } else {
                        s[k]
                    },
            decreases len - j,
        {
            let moved = self.data[j + 1];
            self.data.set(j, moved);
            j = j + 1;
        }
        self.offset = len - 1;
        assert(self.data@ =~= storage_after_remove(s, len as int, index as int));
        assert(self@ =~= old(self)@.remove(index as int));
        element
    }

    /// Removes and returns the last element, or `None` when the vector is
    /// empty. The storage is left as it is.
    pub fn pop(&mut self) -> (r: Option<T>)
        requires
            old(self).wf(),
        ensures
            final(self).wf(),
            final(self).storage() == old(self).storage(),
            old(self)@.len() == 0 ==> r is None && final(self)@ == old(self)@,
            old(self)@.len() > 0 ==> r == Some(old(self)@.last()) && final(self)@
                == old(self)@.drop_last(),
    {
        if self.offset == 0 {
            None
        } else {
            self.offset = self.offset - 1;
            assert(self@ =~= old(self)@.drop_last());
            Some(self.data[self.offset])
        }
    }

    /// Copies the elements of `other` after the last element of `self`;
    /// `other` is left unchanged.
    pub fn append(&mut self, other: &mut Vec<T>)
        requires
            old(self).wf(),
            old(other).wf(),
            old(self).spec_capacity() - old(self)@.len() >= old(other)@.len(),
        ensures
            final(self).wf(),
            *final(other) == *old(other),
            final(self)@ == old(self)@ + old(other)@,
            final(self).storage() == storage_after_copy(
                old(self).storage(),
                old(self)@.len() as int,
                old(other)@,
            ),
    {
        let ghost s = self.data@;
        let len = self.offset;
        let count = other.offset;
        let cap = self.data.len();
        let mut k: usize = 0;
        while k < count
            invariant
                self.offset == len,
                len + count <= s.len(),
                s.len() == cap,
                count <= other.data@.len(),
                k <= count,
                other == old(other),
                self.data@.len() == s.len(),
                forall|m: int|
                    0 <= m < s.len() ==> #[trigger] self.data@[m] == if len <= m < len + k {
                        other.data@[m - len]
                    } else {
                        s[m]
                    },
            decreases count - k,
        {
            let value = other.data[k];
            self.data.set(len + k, value);
            k = k + 1;
        }
        self.offset = len + count;
        assert(self.data@ =~= storage_after_copy(s, len as int, other@));
        assert(self@ =~= old(self)@ + old(other)@);
    }

    /// Empties the vector. The storage is left as it is.
    pub fn clear(&mut self)
        requires
            old(self).wf(),
        ensures
            final(self).wf(),
            final(self)@.len() == 0,
            final(self).spec_capacity() == old(self).spec_capacity(),
            final(self).storage() == old(self).storage(),
    {
        self.offset = 0;
    }

    /// The elements of the vector, as a slice of length `len()`.
    pub fn as_slice(&self) -> (r: &[T])
        requires
            self.wf(),
        ensures
            r@ == self@,
    {
        let (front, _) = self.data.as_slice().split_at(self.offset);
        front
    }

    /// The elements of the vector, as a mutable slice of length `len()`.
    /// What is written through it lands in the storage; nothing else moves.
    pub fn as_mut_slice(&mut self) -> (r: &mut [T])
        requires
            old(self).wf(),
        ensures
            r@ == old(self)@,
            final(r)@.len() == r@.len(),
            final(self).wf(),
            final(self)@ == final(r)@,
            final(self).spec_capacity() == old(self).spec_capacity(),
            final(self).storage() == final(r)@ + old(self).storage().subrange(
                old(self)@.len() as int,
                old(self).spec_capacity() as int,
            ),
    {
        let len = self.offset;
        let (front, _) = whole_mut_slice(&mut self.data).split_at_mut(len);
        front
    }

    /// The whole storage region, stale elements past `len()` included, for
    /// handing to low-level interfaces that take an address and a length.
    pub fn as_ptr(&self) -> (r: &[T])
        ensures
            r@ == self.storage(),
    {
        self.data.as_slice()
    }

    /// The whole storage region, writable, stale elements past `len()`
    /// included. Writes through it may change elements of the vector too;
    /// the length stays as it is.
    pub fn as_mut_ptr(&mut self) -> (r: &mut [T])
        requires
            old(self).wf(),
        ensures
            r@ == old(self).storage(),
            final(r)@.len() == r@.len(),
            final(self).wf(),
            final(self).spec_capacity() == old(self).spec_capacity(),
            final(self).storage() == final(r)@,
            final(self)@.len() == old(self)@.len(),
    {
        whole_mut_slice(&mut self.data)
    }

    /// The element at `index`, which must lie below `len()`.
    pub fn index(&self, index: usize) -> (r: &T)
        requires
            self.wf(),
            index < self@.len(),
        ensures
            *r == self@[index as int],
    {
        &self.data[index]
    }

    /// The element at `index`, which must lie below `len()`, for writing.
    pub fn index_mut(&mut self, index: usize) -> (r: &mut T)
        requires
            old(self).wf(),
            index < old(self)@.len(),
        ensures
            *r == old(self)@[index as int],
            final(self).wf(),
            final(self)@ == old(self)@.update(index as int, *final(r)),
            final(self).storage() == old(self).storage().update(index as int, *final(r)),
    {
        &mut self.data[index]
    }

    /// A fresh traversal of the elements of the vector, first to last.
    pub fn iter(&self) -> (r: std::slice::Iter<'_, T>)
        requires
            self.wf(),
        ensures
            r.remaining() == self@.map_values(|x: T| &x),
    {
        self.as_slice().iter()
    }

    /// The elements of the vector for a traversal that writes them, first to
    /// last: the slice is walked with `for x in v.iter_mut()`.
    pub fn iter_mut(&mut self) -> (r: &mut [T])
        requires
            old(self).wf(),
        ensures
            r@ == old(self)@,
            final(r)@.len() == r@.len(),
            final(self).wf(),
            final(self)@ == final(r)@,
            final(self).spec_capacity() == old(self).spec_capacity(),
            final(self).storage() == final(r)@ + old(self).storage().subrange(
                old(self)@.len() as int,
                old(self).spec_capacity() as int,
            ),
    {
        self.as_mut_slice()
    }

    /// Gives the storage region back, whatever its contents.
    pub(crate) fn into_storage(self) -> (r: std::vec::Vec<T>)
        ensures
            r@ == self.storage(),
    {
        self.data
    }
}

} // verus!
