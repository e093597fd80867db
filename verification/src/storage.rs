//! Per-process storage: the three memory regions a process registers with the
//! broker, and the table that keys one storage record per process identity.
//!
//! A record is created lazily the first time a process registers a region (or
//! asks for its storage explicitly); a region that was never registered reads
//! as empty.  Registering a region swaps it with the previously registered
//! one, which is handed back to the caller.

use vstd::prelude::*;

verus! {

/// What a destination region holds after `rx_len` received bytes are
/// delivered into it: if at least one byte was received and all of them fit,
/// the received bytes replace the front of the region with the last copied
/// byte forced to the terminator 0, and the tail keeps its old contents;
/// otherwise the copy is skipped and the region is unchanged.
pub open spec fn receive_into(dest: Seq<u8>, rx: Seq<u8>, rx_len: nat) -> Seq<u8> {
    if 0 < rx_len <= dest.len() {
        Seq::new(
            dest.len(),
            |i: int|
                if i < rx_len - 1 {
                    rx[i]
                } else if i == rx_len - 1 {
                    0u8
                } else {
                    dest[i]
                },
        )
    } else {
        dest
    }
}

/// The regions a process has registered: `address` and `data_out` are read
/// by the broker when it builds a frame (an empty `data_out` means "no
/// payload", i.e. GET); `data_in` is written with the response.
pub struct AppStorage {
    pub address: Vec<u8>,
    pub data_out: Vec<u8>,
    pub data_in: Vec<u8>,
}

/// One table row: a process identity and its storage record.
pub struct AppEntry {
    pub pid: u32,
    pub storage: AppStorage,
}

/// The table of per-process storage records, at most one per process.
pub struct StorageTable {
    pub entries: Vec<AppEntry>,
}

impl StorageTable {
    /// Well-formed: no process identity appears twice.
    pub open spec fn wf(self) -> bool {
        forall|i: int, j: int|
            0 <= i < j < self.entries@.len() ==> self.entries@[i].pid != self.entries@[j].pid
    }

    /// Whether a storage record exists for `pid`.
    pub open spec fn contains(self, pid: u32) -> bool {
        exists|i: int| 0 <= i < self.entries@.len() && self.entries@[i].pid == pid
    }

    /// The row index of `pid`'s record (meaningful only when `contains`).
    pub open spec fn index_of(self, pid: u32) -> int {
        choose|i: int| 0 <= i < self.entries@.len() && self.entries@[i].pid == pid
    }

    /// The address region registered by `pid`; empty if none.
    pub open spec fn address_of(self, pid: u32) -> Seq<u8> {
        if self.contains(pid) {
            self.entries@[self.index_of(pid)].storage.address@
        } else {
            Seq::empty()
        }
    }

    /// The outgoing-payload region registered by `pid`; empty if none.
    pub open spec fn data_out_of(self, pid: u32) -> Seq<u8> {
        if self.contains(pid) {
            self.entries@[self.index_of(pid)].storage.data_out@
        } else {
            Seq::empty()
        }
    }

    /// The incoming-payload region registered by `pid`; empty if none.
    pub open spec fn data_in_of(self, pid: u32) -> Seq<u8> {
        if self.contains(pid) {
            self.entries@[self.index_of(pid)].storage.data_in@
        } else {
            Seq::empty()
        }
    }

    /// In a well-formed table, a row holding `pid` is the row `index_of`
    /// picks.
    pub proof fn lemma_index_unique(self, pid: u32, i: int)
        requires
            self.wf(),
            0 <= i < self.entries@.len(),
            self.entries@[i].pid == pid,
        ensures
            self.contains(pid),
            self.index_of(pid) == i,
    {
        assert(self.contains(pid));
        let j = self.index_of(pid);
        assert(0 <= j < self.entries@.len() && self.entries@[j].pid == pid);
        if i < j {
            assert(self.entries@[i].pid != self.entries@[j].pid);
        } else if j < i {
            assert(self.entries@[j].pid != self.entries@[i].pid);
        }
    }

    /// Replacing one process's row leaves every other process's record — and
    /// whether it exists — untouched.
    pub proof fn lemma_row_update(self, new_t: StorageTable, pid: u32, i: int)
        requires
            self.wf(),
            0 <= i < self.entries@.len(),
            self.entries@[i].pid == pid,
            new_t.entries@.len() == self.entries@.len(),
            new_t.entries@[i].pid == pid,
            forall|k: int| 0 <= k < self.entries@.len() && k != i ==> new_t.entries@[k] == self.entries@[k],
        ensures
            new_t.wf(),
            new_t.contains(pid),
            new_t.index_of(pid) == i,
            self.contains(pid),
            self.index_of(pid) == i,
            forall|q: u32| q != pid ==> (new_t.contains(q) <==> self.contains(q)),
            forall|q: u32| q != pid ==> new_t.address_of(q) == self.address_of(q),
            forall|q: u32| q != pid ==> new_t.data_out_of(q) == self.data_out_of(q),
            forall|q: u32| q != pid ==> new_t.data_in_of(q) == self.data_in_of(q),
    {
        assert(forall|k: int| 0 <= k < self.entries@.len()
            ==> new_t.entries@[k].pid == self.entries@[k].pid);
        self.lemma_index_unique(pid, i);
        new_t.lemma_index_unique(pid, i);
        assert forall|q: u32| q != pid implies (new_t.contains(q) <==> self.contains(q)) by {
            if self.contains(q) {
                let j = self.index_of(q);
                assert(new_t.entries@[j].pid == q);
            }
            if new_t.contains(q) {
                let j = new_t.index_of(q);
                assert(self.entries@[j].pid == q);
            }
        }
        assert forall|q: u32| q != pid implies new_t.address_of(q) == self.address_of(q)
            && new_t.data_out_of(q) == self.data_out_of(q)
            && new_t.data_in_of(q) == self.data_in_of(q) by {
            if self.contains(q) {
                let j = self.index_of(q);
                self.lemma_index_unique(q, j);
                assert(j != i);
                assert(new_t.entries@[j].pid == q);
                new_t.lemma_index_unique(q, j);
            }
        }
    }

    /// Appending a row for a process that has none leaves every other
    /// process's record — and whether it exists — untouched.
    pub proof fn lemma_row_push(self, new_t: StorageTable, pid: u32)
        requires
            self.wf(),
            !self.contains(pid),
            new_t.entries@.len() == self.entries@.len() + 1,
            new_t.entries@[self.entries@.len() as int].pid == pid,
            forall|k: int| 0 <= k < self.entries@.len() ==> new_t.entries@[k] == self.entries@[k],
        ensures
            new_t.wf(),
            new_t.contains(pid),
            new_t.index_of(pid) == self.entries@.len(),
            forall|q: u32| q != pid ==> (new_t.contains(q) <==> self.contains(q)),
            forall|q: u32| q != pid ==> new_t.address_of(q) == self.address_of(q),
            forall|q: u32| q != pid ==> new_t.data_out_of(q) == self.data_out_of(q),
            forall|q: u32| q != pid ==> new_t.data_in_of(q) == self.data_in_of(q),
    {
        let n = self.entries@.len() as int;
        assert(forall|k: int| 0 <= k < n ==> new_t.entries@[k].pid == self.entries@[k].pid);
        assert forall|i: int, j: int|
            0 <= i < j < new_t.entries@.len() implies new_t.entries@[i].pid != new_t.entries@[j].pid by {
            if j < n {
                assert(self.entries@[i].pid != self.entries@[j].pid);
            } else {
                assert(self.entries@[i].pid != pid);
            }
        }
        new_t.lemma_index_unique(pid, n);
        assert forall|q: u32| q != pid implies (new_t.contains(q) <==> self.contains(q)) by {
            if self.contains(q) {
                let j = self.index_of(q);
                assert(new_t.entries@[j].pid == q);
            }
            if new_t.contains(q) {
                let j = new_t.index_of(q);
                assert(j != n);
                assert(self.entries@[j].pid == q);
            }
        }
        assert forall|q: u32| q != pid implies new_t.address_of(q) == self.address_of(q)
            && new_t.data_out_of(q) == self.data_out_of(q)
            && new_t.data_in_of(q) == self.data_in_of(q) by {
            if self.contains(q) {
                let j = self.index_of(q);
                self.lemma_index_unique(q, j);
                assert(new_t.entries@[j].pid == q);
                new_t.lemma_index_unique(q, j);
            }
        }
    }

    /// An empty table.
    pub fn new() -> (r: StorageTable)
        ensures
            r.wf(),
            r.entries@.len() == 0,
            forall|q: u32| !r.contains(q),
    {
        StorageTable { entries: Vec::new() }
    }

    /// The row index of `pid`'s record, if one exists.
    pub fn find(&self, pid: u32) -> (r: Option<usize>)
        ensures
            match r {
                Some(i) => i < self.entries@.len() && self.entries@[i as int].pid == pid,
                None => !self.contains(pid),
            },
    {
        let n = self.entries.len();
        let mut i: usize = 0;
        while i < n
            invariant
                i <= n,
                n == self.entries@.len(),
                forall|j: int| 0 <= j < i ==> self.entries@[j].pid != pid,
            decreases n - i,
        {
            if self.entries[i].pid == pid {
                return Some(i);
            }
            i += 1;
        }
        None
    }

    /// Register `buf` as `pid`'s address region, creating the record if
    /// needed, and hand back the previously registered region (empty if
    /// none).
    pub fn set_address(&mut self, pid: u32, buf: Vec<u8>) -> (prev: Vec<u8>)
        requires
            old(self).wf(),
        ensures
            final(self).wf(),
            final(self).contains(pid),
            prev@ == old(self).address_of(pid),
            final(self).address_of(pid) == buf@,
            final(self).data_out_of(pid) == old(self).data_out_of(pid),
            final(self).data_in_of(pid) == old(self).data_in_of(pid),
            forall|q: u32| q != pid ==> (final(self).contains(q) <==> old(self).contains(q)),
            forall|q: u32| q != pid ==> final(self).address_of(q) == old(self).address_of(q),
            forall|q: u32| q != pid ==> final(self).data_out_of(q) == old(self).data_out_of(q),
            forall|q: u32| q != pid ==> final(self).data_in_of(q) == old(self).data_in_of(q),
    {
        match self.find(pid) {
            Some(i) => {
                let e = self.entries.remove(i);
                let AppEntry { pid: _, storage } = e;
                let AppStorage { address, data_out, data_in } = storage;
                let e2 = AppEntry {
                    pid,
                    storage: AppStorage { address: buf, data_out, data_in },
                };
                self.entries.insert(i, e2);
                proof {
                    assert(self.entries@ =~= old(self).entries@.update(i as int, self.entries@[i as int]));
                    old(self).lemma_row_update(*self, pid, i as int);
                }
                address
            }
            None => {
                let e = AppEntry {
                    pid,
                    storage: AppStorage { address: buf, data_out: Vec::new(), data_in: Vec::new() },
                };
                self.entries.push(e);
                let prev: Vec<u8> = Vec::new();
                proof {
                    old(self).lemma_row_push(*self, pid);
                    assert(prev@ =~= Seq::<u8>::empty());
                }
                prev
            }
        }
    }

    /// Register `buf` as `pid`'s outgoing-payload region, creating the record
    /// if needed, and hand back the previously registered region (empty if
    /// none).
    pub fn set_data_out(&mut self, pid: u32, buf: Vec<u8>) -> (prev: Vec<u8>)
        requires
            old(self).wf(),
        ensures
            final(self).wf(),
            final(self).contains(pid),
            prev@ == old(self).data_out_of(pid),
            final(self).data_out_of(pid) == buf@,
            final(self).address_of(pid) == old(self).address_of(pid),
            final(self).data_in_of(pid) == old(self).data_in_of(pid),
            forall|q: u32| q != pid ==> (final(self).contains(q) <==> old(self).contains(q)),
            forall|q: u32| q != pid ==> final(self).address_of(q) == old(self).address_of(q),
            forall|q: u32| q != pid ==> final(self).data_out_of(q) == old(self).data_out_of(q),
            forall|q: u32| q != pid ==> final(self).data_in_of(q) == old(self).data_in_of(q),
    {
        match self.find(pid) {
            Some(i) => {
                let e = self.entries.remove(i);
                let AppEntry { pid: _, storage } = e;
                let AppStorage { address, data_out, data_in } = storage;
                let e2 = AppEntry {
                    pid,
                    storage: AppStorage { address, data_out: buf, data_in },
                };
                self.entries.insert(i, e2);
                proof {
                    assert(self.entries@ =~= old(self).entries@.update(i as int, self.entries@[i as int]));
                    old(self).lemma_row_update(*self, pid, i as int);
                }
                data_out
            }
            None => {
                let e = AppEntry {
                    pid,
                    storage: AppStorage { address: Vec::new(), data_out: buf, data_in: Vec::new() },
                };
                self.entries.push(e);
                let prev: Vec<u8> = Vec::new();
                proof {
                    old(self).lemma_row_push(*self, pid);
                    assert(prev@ =~= Seq::<u8>::empty());
                }
                prev
            }
        }
    }

    /// Register `buf` as `pid`'s incoming-payload region, creating the record
    /// if needed, and hand back the previously registered region (empty if
    /// none).
    pub fn set_data_in(&mut self, pid: u32, buf: Vec<u8>) -> (prev: Vec<u8>)
        requires
            old(self).wf(),
        ensures
            final(self).wf(),
            final(self).contains(pid),
            prev@ == old(self).data_in_of(pid),
            final(self).data_in_of(pid) == buf@,
            final(self).address_of(pid) == old(self).address_of(pid),
            final(self).data_out_of(pid) == old(self).data_out_of(pid),
            forall|q: u32| q != pid ==> (final(self).contains(q) <==> old(self).contains(q)),
            forall|q: u32| q != pid ==> final(self).address_of(q) == old(self).address_of(q),
            forall|q: u32| q != pid ==> final(self).data_out_of(q) == old(self).data_out_of(q),
            forall|q: u32| q != pid ==> final(self).data_in_of(q) == old(self).data_in_of(q),
    {
        match self.find(pid) {
            Some(i) => {
                let e = self.entries.remove(i);
                let AppEntry { pid: _, storage } = e;
                let AppStorage { address, data_out, data_in } = storage;
                let e2 = AppEntry {
                    pid,
                    storage: AppStorage { address, data_out, data_in: buf },
                };
                self.entries.insert(i, e2);
                proof {
                    assert(self.entries@ =~= old(self).entries@.update(i as int, self.entries@[i as int]));
                    old(self).lemma_row_update(*self, pid, i as int);
                }
                data_in
            }
            None => {
                let e = AppEntry {
                    pid,
                    storage: AppStorage { address: Vec::new(), data_out: Vec::new(), data_in: buf },
                };
                self.entries.push(e);
                let prev: Vec<u8> = Vec::new();
                proof {
                    old(self).lemma_row_push(*self, pid);
                    assert(prev@ =~= Seq::<u8>::empty());
                }
                prev
            }
        }
    }

    /// Deliver `rx_len` received bytes from `rx` into `pid`'s incoming-payload
    /// region, as `receive_into` describes.  A process without a storage
    /// record has an empty region, so the copy is skipped.
    pub fn write_data_in(&mut self, pid: u32, rx: &Vec<u8>, rx_len: usize)
        requires
            old(self).wf(),
            rx_len <= rx@.len(),
        ensures
            final(self).wf(),
            final(self).data_in_of(pid) == receive_into(old(self).data_in_of(pid), rx@, rx_len as nat),
            final(self).address_of(pid) == old(self).address_of(pid),
            final(self).data_out_of(pid) == old(self).data_out_of(pid),
            forall|q: u32| (final(self).contains(q) <==> old(self).contains(q)),
            forall|q: u32| q != pid ==> final(self).address_of(q) == old(self).address_of(q),
            forall|q: u32| q != pid ==> final(self).data_out_of(q) == old(self).data_out_of(q),
            forall|q: u32| q != pid ==> final(self).data_in_of(q) == old(self).data_in_of(q),
    {
        match self.find(pid) {
            Some(i) => {
                let e = self.entries.remove(i);
                let AppEntry { pid: _, storage } = e;
                let AppStorage { address, data_out, mut data_in } = storage;
                let ghost dest0 = data_in@;
                if 0 < rx_len && rx_len <= data_in.len() {
                    let mut j: usize = 0;
                    while j < rx_len - 1
                        invariant
                            0 < rx_len <= data_in@.len(),
                            rx_len <= rx@.len(),
                            j <= rx_len - 1,
                            data_in@.len() == dest0.len(),
                            forall|k: int| 0 <= k < j ==> data_in@[k] == rx@[k],
                            forall|k: int| j <= k < dest0.len() ==> data_in@[k] == dest0[k],
                        decreases rx_len - j,
                    {
                        data_in.set(j, rx[j]);
                        j += 1;
                    }
                    data_in.set(rx_len - 1, 0);
                    proof {
                        assert(data_in@ =~= receive_into(dest0, rx@, rx_len as nat));
                    }
                } else {
                    proof {
                        assert(data_in@ =~= receive_into(dest0, rx@, rx_len as nat));
                    }
                }
                let e2 = AppEntry {
                    pid,
                    storage: AppStorage { address, data_out, data_in },
                };
                self.entries.insert(i, e2);
                proof {
                    assert(self.entries@ =~= old(self).entries@.update(i as int, self.entries@[i as int]));
                    old(self).lemma_row_update(*self, pid, i as int);
                }
            }
            None => {
                proof {
                    assert(old(self).data_in_of(pid) =~= Seq::<u8>::empty());
                }
            }
        }
    }

    /// Make sure a storage record exists for `pid`, creating an empty one if
    /// needed.  Nothing a region read would observe changes.
    pub fn ensure_entry(&mut self, pid: u32)
        requires
            old(self).wf(),
        ensures
            final(self).wf(),
            final(self).contains(pid),
            final(self).address_of(pid) == old(self).address_of(pid),
            final(self).data_out_of(pid) == old(self).data_out_of(pid),
            final(self).data_in_of(pid) == old(self).data_in_of(pid),
            forall|q: u32| q != pid ==> (final(self).contains(q) <==> old(self).contains(q)),
            forall|q: u32| q != pid ==> final(self).address_of(q) == old(self).address_of(q),
            forall|q: u32| q != pid ==> final(self).data_out_of(q) == old(self).data_out_of(q),
            forall|q: u32| q != pid ==> final(self).data_in_of(q) == old(self).data_in_of(q),
    {
        match self.find(pid) {
            Some(i) => {
                proof {
                    self.lemma_index_unique(pid, i as int);
                }
            }
            None => {
                let e = AppEntry {
                    pid,
                    storage: AppStorage {
                        address: Vec::new(),
                        data_out: Vec::new(),
                        data_in: Vec::new(),
                    },
                };
                self.entries.push(e);
                proof {
                    old(self).lemma_row_push(*self, pid);
                }
            }
        }
    }
}

} // verus!
