use vstd::prelude::*;

use crate::vec::Vec;
use crate::Error;

verus! {

/// A storage region of fixed size, paired with its access flag.
///
/// While the region is free it holds its storage; `acquire` lends the
/// storage out as a `Vec` and marks the region held, and `release` takes it
/// back and marks the region free. So at most one handle to the storage is
/// live at any time. A holder must hand its handle back with `release` when
/// done with it: that is the one way to free the region.
pub struct Region<T> {
    count: usize,
    slot: Option<std::vec::Vec<T>>,
}

/// What `acquire` does: on a held region it fails with `Error::Locked` and
/// changes nothing; on a free one it hands out an empty vector over the
/// region's storage, stale contents kept, and marks the region held.
pub open spec fn acquired<T: Copy>(
    before: Region<T>,
    after: Region<T>,
    r: Result<Vec<T>, Error>,
) -> bool {
    if before.is_locked() {
        r == Err::<Vec<T>, Error>(Error::Locked) && after == before
    } else {
        &&& r is Ok
        &&& r->Ok_0.wf()
        &&& r->Ok_0@.len() == 0
        &&& r->Ok_0.spec_capacity() == before.spec_capacity()
        &&& r->Ok_0.storage() == before.contents()
        &&& after.wf()
        &&& after.is_locked()
        &&& after.spec_capacity() == before.spec_capacity()
    }
}

/// What `release` does: the region takes the handle's storage back and is
/// free again.
pub open spec fn released<T: Copy>(before: Region<T>, handle: Vec<T>, after: Region<T>) -> bool {
    &&& after.wf()
    &&& !after.is_locked()
    &&& after.spec_capacity() == before.spec_capacity()
    &&& after.contents() == handle.storage()
}

/// While a handle taken from a region is live, a second `acquire` on the
/// region fails with `Error::Locked`; once that handle is released,
/// `acquire` on the region succeeds again.
pub proof fn lemma_single_holder<T: Copy>(
    free: Region<T>,
    held: Region<T>,
    handle: Vec<T>,
    still_held: Region<T>,
    second: Result<Vec<T>, Error>,
    freed: Region<T>,
    again: Region<T>,
    third: Result<Vec<T>, Error>,
)
    requires
        free.wf(),
        acquired(free, held, Ok(handle)),
        acquired(held, still_held, second),
        released(still_held, handle, freed),
        acquired(freed, again, third),
    ensures
        second == Err::<Vec<T>, Error>(Error::Locked),
        still_held == held,
        handle.spec_capacity() == free.spec_capacity(),
        !freed.is_locked(),
        third is Ok,
        third->Ok_0@.len() == 0,
        third->Ok_0.spec_capacity() == free.spec_capacity(),
{
}

impl<T: Copy> Region<T> {
    /// The region's size fits its storage while the storage is at home.
    pub closed spec fn wf(&self) -> bool {
        self.slot matches Some(v) ==> v.len() == self.count
    }

    /// Whether a handle to the region is live.
    pub closed spec fn is_locked(&self) -> bool {
        self.slot is None
    }

    /// The number of elements of the region.
    pub closed spec fn spec_capacity(&self) -> nat {
        self.count as nat
    }

    /// The storage of a free region.
    pub closed spec fn contents(&self) -> Seq<T> {
        self.slot->Some_0@
    }

    /// A free region of `count` elements, each set to `default`.
    pub fn new(count: usize, default: T) -> (r: Self)
        ensures
            r.wf(),
            !r.is_locked(),
            r.spec_capacity() == count,
            r.contents() == Seq::new(count as nat, |i: int| default),
    {
        let mut data: std::vec::Vec<T> = std::vec::Vec::new();
        let mut k: usize = 0;
        while k < count
            invariant
                k <= count,
                data@ == Seq::new(k as nat, |i: int| default),
            decreases count - k,
        {
            data.push(default);
            k = k + 1;
            assert(data@ =~= Seq::new(k as nat, |i: int| default));
        }
        Region { count, slot: Some(data) }
    }

    /// Takes the region: on success, a vector of length 0 over its storage,
    /// which stays held until the vector is given back with `release`.
    /// Never waits: on a held region it returns `Error::Locked` at once.
    pub fn acquire(&mut self) -> (r: Result<Vec<T>, Error>)
        requires
            old(self).wf(),
        ensures
            final(self).wf(),
            acquired(*old(self), *final(self), r),
    {
        match self.slot.take() {
            None => Err(Error::Locked),
            Some(data) => Ok(Vec::new(data)),
        }
    }

    /// Gives back the handle taken from this region, which frees it.
    pub fn release(&mut self, handle: Vec<T>)
        requires
            old(self).wf(),
            old(self).is_locked(),
            handle.spec_capacity() == old(self).spec_capacity(),
        ensures
            released(*old(self), handle, *final(self)),
    {
        self.slot = Some(handle.into_storage());
    }
}

} // verus!
