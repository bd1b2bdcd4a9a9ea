use vstd::prelude::*;

verus! {

/// The descriptors would not fit in the buffer reserved for them.
#[derive(Clone, Copy, Debug, PartialEq, Eq, Structural)]
pub struct DescriptorOverflow;

/// A fixed-capacity byte buffer that descriptors are appended to.
/// Its capacity never changes; bytes past the written prefix stay zero.
pub struct DescriptorBuffer {
    buf: Vec<u8>,
    used: usize,
}

/// All descriptors of `parts`, one after another.
pub open spec fn concat(parts: Seq<Seq<u8>>) -> Seq<u8>
    decreases parts.len(),
{
    if parts.len() == 0 {
        Seq::empty()
    } else {
        concat(parts.drop_last()) + parts.last()
    }
}

pub open spec fn views(parts: Seq<Vec<u8>>) -> Seq<Seq<u8>> {
    parts.map_values(|v: Vec<u8>| v@)
}

proof fn lemma_concat_prefix_len(parts: Seq<Seq<u8>>, i: int)
    requires
        0 <= i <= parts.len(),
    ensures
        concat(parts.take(i)).len() <= concat(parts).len(),
    decreases parts.len(),
{
    if i < parts.len() {
        assert(parts.drop_last().take(i) =~= parts.take(i));
        lemma_concat_prefix_len(parts.drop_last(), i);
    } else {
        assert(parts.take(i) =~= parts);
    }
}

impl DescriptorBuffer {
    pub closed spec fn spec_capacity(&self) -> nat {
        self.buf@.len()
    }

    /// The bytes written so far.
    pub closed spec fn written(&self) -> Seq<u8> {
        self.buf@.take(self.used as int)
    }

    pub closed spec fn wf(&self) -> bool {
        &&& self.used <= self.buf@.len()
        &&& forall|k: int| self.used <= k < self.buf@.len() ==> self.buf@[k] == 0
    }

    /// An empty buffer of `capacity` zero bytes.
    pub fn new(capacity: usize) -> (r: DescriptorBuffer)
        ensures
            r.wf(),
            r.spec_capacity() == capacity,
            r.written() == Seq::<u8>::empty(),
    {
        let buf = vec![0u8; capacity];
        let r = DescriptorBuffer { buf, used: 0 };
        assert(r.written() =~= Seq::<u8>::empty());
        r
    }

    pub fn capacity(&self) -> (r: usize)
        ensures
            r == self.spec_capacity(),
    {
        self.buf.len()
    }

    pub fn len(&self) -> (r: usize)
        requires
            self.wf(),
        ensures
            r == self.written().len(),
    {
        self.used
    }

    /// The written bytes.
    pub fn bytes(&self) -> (r: &[u8])
        requires
            self.wf(),
        ensures
            r@ == self.written(),
    {
        let r = vstd::slice::slice_subrange(self.buf.as_slice(), 0, self.used);
        assert(r@ =~= self.written());
        r
    }

    /// Appends `bytes` whole, or fails and leaves the buffer as it was.
    pub fn write(&mut self, bytes: &[u8]) -> (r: Result<(), DescriptorOverflow>)
        requires
            old(self).wf(),
        ensures
            final(self).wf(),
            final(self).spec_capacity() == old(self).spec_capacity(),
            r.is_ok() == (old(self).written().len() + bytes@.len() <= old(self).spec_capacity()),
            r.is_ok() ==> final(self).written() == old(self).written() + bytes@,
            r.is_err() ==> final(self).written() == old(self).written(),
    {
        if bytes.len() > self.buf.len() - self.used {
            return Err(DescriptorOverflow);
        }
        let ghost start = self.used as int;
        let ghost before = self.buf@;
        let mut i: usize = 0;
        while i < bytes.len()
            invariant
                0 <= i <= bytes@.len(),
                start + bytes@.len() <= before.len(),
                self.used == start,
                self.buf@.len() == before.len(),
                before.len() <= usize::MAX,
                forall|k: int| start <= k < before.len() ==> before[k] == 0,
                forall|k: int| 0 <= k < start ==> self.buf@[k] == before[k],
                forall|k: int| 0 <= k < i ==> self.buf@[start + k] == bytes@[k],
                forall|k: int| start + i <= k < before.len() ==> self.buf@[k] == before[k],
            decreases bytes@.len() - i,
        {
            let at = self.used + i;
            self.buf.set(at, bytes[i]);
            i = i + 1;
        }
        self.used = self.used + bytes.len();
        assert forall|k: int| self.used <= k < self.buf@.len() implies self.buf@[k] == 0 by {
            assert(i == bytes@.len());
            assert(start + i <= k);
            assert(self.buf@[k] == before[k]);
            assert(before[k] == 0);
        }
        assert(self.written() =~= before.take(start) + bytes@);
        Ok(())
    }
}

/// Writes the descriptor set `parts` into a fresh buffer of `capacity` bytes.
/// Succeeds exactly when the whole set fits; never returns a partial set.
pub fn build_descriptor_set(parts: &Vec<Vec<u8>>, capacity: usize) -> (r: Result<DescriptorBuffer, DescriptorOverflow>)
    ensures
        r.is_ok() == (concat(views(parts@)).len() <= capacity),
        r matches Ok(b) ==> b.wf() && b.spec_capacity() == capacity && b.written() == concat(views(parts@)),
{
    let ghost ps = views(parts@);
    let mut b = DescriptorBuffer::new(capacity);
    let mut i: usize = 0;
    while i < parts.len()
        invariant
            0 <= i <= parts@.len(),
            ps == views(parts@),
            b.wf(),
            b.spec_capacity() == capacity,
            b.written() == concat(ps.take(i as int)),
        decreases parts@.len() - i,
    {
        assert(ps.take(i as int + 1).drop_last() =~= ps.take(i as int));
        let res = b.write(parts[i].as_slice());
        if res.is_err() {
            proof {
                lemma_concat_prefix_len(ps, i as int + 1);
            }
            return Err(DescriptorOverflow);
        }
        i = i + 1;
    }
    assert(ps.take(i as int) =~= ps);
    Ok(b)
}

} // verus!
