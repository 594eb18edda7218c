use vstd::prelude::*;
use crate::record::{PlacementRecord, record_bytes, RECORD_LEN};

verus! {

/// A per-object binding set: binding 0 is the whole of one uniform buffer,
/// visible to the vertex stage.
#[derive(Clone, Copy, Debug, PartialEq, Eq, Structural)]
pub struct UniformBinding {
    /// Index of the buffer in the store.
    pub buffer: usize,
    /// Bytes bound, from offset zero.
    pub size: u64,
}

/// One uniform buffer per drawable object, and one binding set per buffer.
pub struct UniformStore {
    /// The bytes uploaded to each buffer.
    pub buffers: Vec<Vec<u8>>,
    /// The binding set of each object, index-aligned with `buffers`.
    pub bindings: Vec<UniformBinding>,
}

impl UniformStore {
    /// Binding set `i` covers buffer `i`, and each buffer is one record long.
    pub open spec fn wf(&self) -> bool {
        &&& self.buffers@.len() == self.bindings@.len()
        &&& forall|i: int|
            0 <= i < self.bindings@.len() ==> #[trigger] self.bindings@[i] == (UniformBinding {
                buffer: i as usize,
                size: RECORD_LEN as u64,
            })
        &&& forall|i: int|
            0 <= i < self.buffers@.len() ==> (#[trigger] self.buffers@[i])@.len() == RECORD_LEN
    }

    /// The store holds exactly the encoded `objects`, in their order.
    pub open spec fn holds(&self, objects: Seq<PlacementRecord>) -> bool {
        &&& self.wf()
        &&& self.buffers@.len() == objects.len()
        &&& forall|i: int|
            0 <= i < objects.len() ==> (#[trigger] self.buffers@[i])@ == record_bytes(objects[i])
    }

    /// Encodes each record into a buffer of its own and builds its binding set.
    pub fn build_object_bindings(objects: &[PlacementRecord]) -> (s: UniformStore)
        ensures
            s.holds(objects@),
            s.bindings@.len() == objects@.len(),
            s.bindings@.no_duplicates(),
            s.bindings@.to_set().len() == objects@.len(),
    {
        let mut buffers: Vec<Vec<u8>> = Vec::new();
        let mut bindings: Vec<UniformBinding> = Vec::new();
        let mut i: usize = 0;
        while i < objects.len()
            invariant
                i <= objects@.len(),
                buffers@.len() == i,
                bindings@.len() == i,
                forall|k: int|
                    0 <= k < i ==> #[trigger] bindings@[k] == (UniformBinding {
                        buffer: k as usize,
                        size: RECORD_LEN as u64,
                    }),
                forall|k: int| 0 <= k < i ==> (#[trigger] buffers@[k])@ == record_bytes(objects@[k]),
            decreases objects@.len() - i,
        {
            let bytes = objects[i].encode();
            buffers.push(bytes);
            bindings.push(UniformBinding { buffer: i, size: RECORD_LEN as u64 });
            i = i + 1;
        }
        let s = UniformStore { buffers, bindings };
        assert forall|k: int| 0 <= k < s.buffers@.len() implies (#[trigger] s.buffers@[k])@.len()
            == RECORD_LEN by {
            assert(s.buffers@[k]@ == record_bytes(objects@[k]));
        }
        assert forall|p: int, q: int|
            0 <= p < s.bindings@.len() && 0 <= q < s.bindings@.len() && p != q implies s.bindings@[p]
            != s.bindings@[q] by {
            assert(s.bindings@[p].buffer == p as usize);
            assert(s.bindings@[q].buffer == q as usize);
        }
        proof {
            s.bindings@.unique_seq_to_set();
        }
        s
    }

    /// Re-uploads the bytes of object `i`, keeping every binding set as it is.
    pub fn rewrite(&mut self, i: usize, rec: PlacementRecord)
        requires
            old(self).wf(),
            i < old(self).buffers@.len(),
        ensures
            final(self).wf(),
            final(self).bindings@ == old(self).bindings@,
            final(self).buffers@.len() == old(self).buffers@.len(),
            final(self).buffers@[i as int]@ == record_bytes(rec),
            forall|k: int|
                0 <= k < old(self).buffers@.len() && k != i ==> #[trigger] final(self).buffers@[k]
                    == old(self).buffers@[k],
    {
        let bytes = rec.encode();
        self.buffers.set(i, bytes);
    }
}

} // verus!
