use vstd::prelude::*;

verus! {

/// Hands out the keys under which downloads are staged: one per operation,
/// never the same twice, and independent of any display filename.
pub struct StagingKeys {
    pub next: u64,
    pub issued: Ghost<Set<u64>>,
}

impl StagingKeys {
    pub open spec fn wf(&self) -> bool {
        forall|k: u64| #[trigger] self.issued@.contains(k) ==> k < self.next
    }

    pub fn new() -> (r: StagingKeys)
        ensures
            r.wf(),
            r.issued@ == Set::<u64>::empty(),
    {
        StagingKeys { next: 0, issued: Ghost(Set::empty()) }
    }

    /// A key that no earlier call has returned, or `None` once all are used.
    pub fn allocate(&mut self) -> (r: Option<u64>)
        requires
            old(self).wf(),
        ensures
            final(self).wf(),
            match r {
                Some(k) => !old(self).issued@.contains(k) && final(self).issued@ == old(
                    self,
                ).issued@.insert(k),
                None => final(self).issued@ == old(self).issued@ && old(self).next == u64::MAX,
            },
    {
        if self.next == u64::MAX {
            return None;
        }
        let k = self.next;
        self.next = self.next + 1;
        self.issued = Ghost(self.issued@.insert(k));
        Some(k)
    }
}

/// Two operations never share a staging key, whatever filenames they carry:
/// a key allocated after another differs from it.
pub proof fn lemma_keys_distinct(keys: StagingKeys, first: u64, second: u64)
    requires
        keys.wf(),
        keys.issued@.contains(first),
        !keys.issued@.contains(second),
    ensures
        first != second,
{
}

/// Whether a downloaded body of `len` bytes may be staged.
pub fn fits_payload(len: usize, max_payload: usize) -> (r: bool)
    ensures
        r == (len <= max_payload),
{
    len <= max_payload
}

} // verus!
