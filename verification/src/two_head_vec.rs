//! The double-headed vector: a fixed-capacity, append-only sequence held in
//! two buffers. The read head names the published buffer, which lookups read;
//! the other buffer is writer-private. An append writes the new element into
//! the writer-private buffer, republishes by swapping the read head, bumps the
//! generation counter, and then copies the published content back into the
//! demoted buffer, so both buffers converge again before the next append.

use vstd::prelude::*;

verus! {

/// Names one of the container's two element buffers.
enum Head {
    First,
    Second,
}

/// Raised by construction when the requested capacity is zero.
#[derive(Clone, Copy, Debug, PartialEq, Eq, Structural)]
pub enum TwoHeadVecError {
    InvalidCapacity,
}

/// What an append does to the published sequence of a container with the
/// given capacity: the value lands at the end while room remains, and a full
/// container is left unchanged.
pub open spec fn spec_push_seq<T>(s: Seq<T>, capacity: usize, value: T) -> Seq<T> {
    if s.len() < capacity {
        s.push(value)
    } else {
        s
    }
}

/// What an append returns: success while room remains, and on a full
/// container the rejected value itself, handed back to the caller.
pub open spec fn spec_push_result<T>(s: Seq<T>, capacity: usize, value: T) -> Result<(), T> {
    if s.len() < capacity {
        Ok(())
    } else {
        Err(value)
    }
}

/// What a lookup returns on a published sequence: the element at `index`
/// when the index is below the published length, otherwise the offending
/// index itself.
pub open spec fn spec_get<T>(s: Seq<T>, index: usize) -> Result<T, usize> {
    if index < s.len() {
        Ok(s[index as int])
    } else {
        Err(index)
    }
}

/// A fixed-capacity, append-only vector kept in two converging buffers.
pub struct TwoHeadVec<T> {
    buffer_1: Vec<T>,
    buffer_2: Vec<T>,
    head_read: Head,
    capacity: usize,
    length: usize,
    generation: usize,
}

impl<T> View for TwoHeadVec<T> {
    type V = Seq<T>;

    /// The published sequence: the content of the buffer the read head names.
    closed spec fn view(&self) -> Seq<T> {
        match self.head_read {
            Head::First => self.buffer_1@,
            Head::Second => self.buffer_2@,
        }
    }
}

impl<T> TwoHeadVec<T> {
    /// The fixed element capacity chosen at construction.
    pub closed spec fn capacity(&self) -> usize {
        self.capacity
    }

    /// The generation counter: bumped exactly once per completed append.
    pub closed spec fn generation(&self) -> usize {
        self.generation
    }

    /// The content of the writer-private buffer, the one the read head does
    /// not name. Lookups never read it; appends mutate it first.
    pub closed spec fn write_buffer(&self) -> Seq<T> {
        match self.head_read {
            Head::First => self.buffer_2@,
            Head::Second => self.buffer_1@,
        }
    }

    /// Well-formedness, as it holds whenever no append is in flight: the
    /// capacity is positive, the published length never exceeds it, the two
    /// buffers have converged on the published content, and the generation
    /// counter equals the number of completed appends.
    pub closed spec fn wf(&self) -> bool {
        &&& self.capacity > 0
        &&& self.length <= self.capacity
        &&& self.buffer_1@.len() == self.length
        &&& self.buffer_2@.len() == self.length
        &&& self.buffer_1@ == self.buffer_2@
        &&& self.generation == self.length
    }

    /// Constructs a container of the given fixed capacity, rejecting zero.
    pub fn new(capacity: usize) -> (r: Result<TwoHeadVec<T>, TwoHeadVecError>)
        ensures
            capacity == 0 ==> r == Err::<TwoHeadVec<T>, TwoHeadVecError>(
                TwoHeadVecError::InvalidCapacity,
            ),
            capacity > 0 ==> (r matches Ok(v) && v.wf() && v@ == Seq::<T>::empty()
                && v.capacity() == capacity && v.generation() == 0),
    {
        if capacity == 0 {
            return Err(TwoHeadVecError::InvalidCapacity);
        }
        Ok(TwoHeadVec {
            buffer_1: Vec::with_capacity(capacity),
            buffer_2: Vec::with_capacity(capacity),
            head_read: Head::First,
            capacity,
            length: 0,
            generation: 0,
        })
    }
}

impl<T: Copy> TwoHeadVec<T> {
    /// Appends `value` as the next element. On a full container the value is
    /// handed back unchanged and nothing is mutated; otherwise the published
    /// sequence grows by exactly that element and the generation counter is
    /// bumped exactly once.
    pub fn push(&mut self, value: T) -> (r: Result<(), T>)
        requires
            old(self).wf(),
        ensures
            final(self).wf(),
            final(self).capacity() == old(self).capacity(),
            final(self)@ == spec_push_seq(old(self)@, old(self).capacity(), value),
            r == spec_push_result(old(self)@, old(self).capacity(), value),
            old(self)@.len() < old(self).capacity() ==> final(self).generation()
                == old(self).generation() + 1,
            old(self)@.len() >= old(self).capacity() ==> *final(self) == *old(self),
    {
        if self.length == self.capacity {
            return Err(value);
        }
        // Write the new element into the writer-private buffer at the first
        // free offset; nothing reads this buffer, so readers cannot see the
        // half-grown state.
        match self.head_read {
            Head::First => self.buffer_2.push(value),
            Head::Second => self.buffer_1.push(value),
        }
        // Publish: swap the head roles, so the buffer just written becomes
        // the one lookups read, and bump the generation counter.
        self.head_read = match self.head_read {
            Head::First => Head::Second,
            Head::Second => Head::First,
        };
        self.generation = self.generation + 1;
        // Length bookkeeping: from here on the new length is authoritative.
        self.length = self.length + 1;
        // Convergence copy: the demoted buffer holds the previously published
        // content, so appending the new element brings it level with the
        // published buffer before the next append starts.
        match self.head_read {
            Head::First => self.buffer_2.push(value),
            Head::Second => self.buffer_1.push(value),
        }
        Ok(())
    }

    /// Returns a copy of the published element at `index`, or the offending
    /// index when it lies at or past the published length. Only the buffer
    /// the read head names is consulted.
    pub fn get(&self, index: usize) -> (r: Result<T, usize>)
        requires
            self.wf(),
        ensures
            r == spec_get(self@, index),
    {
        if index >= self.length {
            return Err(index);
        }
        let v = match self.head_read {
            Head::First => self.buffer_1[index],
            Head::Second => self.buffer_2[index],
        };
        Ok(v)
    }
}

/// Convergence of the two buffers: whenever no append is in flight, the
/// writer-private buffer holds exactly the published content.
pub proof fn lemma_buffers_converge<T>(v: &TwoHeadVec<T>)
    requires
        v.wf(),
    ensures
        v.write_buffer() == v@,
{
}

} // verus!
