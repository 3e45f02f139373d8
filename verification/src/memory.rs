//! The machine's memory: a write-once mapping from relocatable address to
//! value, over segments that are allocated in order and never freed.
//!
//! The full segment manager is a sibling subsystem; this core consumes
//! only a narrow contract: probing reads, typed reads, the write-once
//! insert, and segment allocation.

use vstd::prelude::*;
use crate::bignum::big_eq;
use crate::bignum::big_value;
use crate::errors::MemoryError;
use crate::errors::VirtualMachineError;
use crate::relocatable::MaybeRelocatable;
use crate::relocatable::Relocatable;
use crate::relocatable::ValueModel;

verus! {

/// The mapping that a sequence of written cells denotes.
pub open spec fn cells_map(s: Seq<(Relocatable, MaybeRelocatable)>) -> Map<Relocatable, ValueModel>
    decreases s.len(),
{
    if s.len() == 0 {
        Map::empty()
    } else {
        cells_map(s.drop_last()).insert(s.last().0, s.last().1@)
    }
}

pub proof fn lemma_cells_map_absent(s: Seq<(Relocatable, MaybeRelocatable)>, k: Relocatable)
    requires
        forall|j: int| 0 <= j < s.len() ==> s[j].0 != k,
    ensures
        !cells_map(s).contains_key(k),
    decreases s.len(),
{
    if s.len() > 0 {
        assert(s.drop_last() =~= s.subrange(0, s.len() - 1));
        lemma_cells_map_absent(s.drop_last(), k);
    }
}

pub proof fn lemma_cells_map_found(s: Seq<(Relocatable, MaybeRelocatable)>, i: int, k: Relocatable)
    requires
        0 <= i < s.len(),
        s[i].0 == k,
        forall|j: int| i < j < s.len() ==> s[j].0 != k,
    ensures
        cells_map(s).contains_key(k),
        cells_map(s)[k] == s[i].1@,
    decreases s.len(),
{
    if i < s.len() - 1 {
        assert(s.drop_last() =~= s.subrange(0, s.len() - 1));
        lemma_cells_map_found(s.drop_last(), i, k);
    }
}

/// What one write does: it fails outside the allocated segments, fails on
/// a cell that already holds a different value, and otherwise extends the
/// contents.  Writing a value a cell already holds changes nothing.
pub open spec fn write_outcome(
    num_segments: int,
    contents: Map<Relocatable, ValueModel>,
    addr: Relocatable,
    value: ValueModel,
) -> Option<Map<Relocatable, ValueModel>> {
    if addr.segment_index >= num_segments {
        None
    } else if contents.contains_key(addr) && contents[addr] != value {
        None
    } else {
        Some(contents.insert(addr, value))
    }
}

/// Write-once law: once a write of `v` at `addr` has succeeded, a write of
/// a different value there fails, while writing `v` again succeeds and
/// leaves the contents unchanged.
pub proof fn lemma_write_once(
    num_segments: int,
    contents: Map<Relocatable, ValueModel>,
    addr: Relocatable,
    v: ValueModel,
    w: ValueModel,
)
    requires
        write_outcome(num_segments, contents, addr, v) is Some,
    ensures
        ({
            let after = write_outcome(num_segments, contents, addr, v).unwrap();
            &&& v != w ==> write_outcome(num_segments, after, addr, w) is None
            &&& write_outcome(num_segments, after, addr, v) == Some(after)
        }),
{
    let after = write_outcome(num_segments, contents, addr, v).unwrap();
    assert(after.contains_key(addr) && after[addr] == v);
    assert(after.insert(addr, v) =~= after);
}

/// The machine's memory: written cells in write order, and the number of
/// allocated segments.  A cell is written at most once, so `cells` holds
/// each address at most once; contracts read the memory through
/// `contents()`, the mapping the written cells denote.
pub struct Memory {
    pub cells: Vec<(Relocatable, MaybeRelocatable)>,
    pub num_segments_exec: usize,
}

impl Memory {
    /// The number of allocated segments.
    pub open spec fn num_segments(&self) -> int {
        self.num_segments_exec as int
    }

    /// The mapping from written address to held value.
    pub open spec fn contents(&self) -> Map<Relocatable, ValueModel> {
        cells_map(self.cells@)
    }

    /// A memory with no segments and no written cells.
    pub fn new() -> (r: Self)
        ensures
            r.num_segments() == 0,
            r.contents() == Map::<Relocatable, ValueModel>::empty(),
    {
        Memory { cells: Vec::new(), num_segments_exec: 0 }
    }

    /// Allocates a new empty segment and returns its base address.
    pub fn add_segment(&mut self) -> (r: Relocatable)
        requires
            old(self).num_segments() < usize::MAX,
        ensures
            r == (Relocatable { segment_index: old(self).num_segments_exec, offset: 0 }),
            final(self).num_segments() == old(self).num_segments() + 1,
            final(self).contents() == old(self).contents(),
    {
        let base = Relocatable { segment_index: self.num_segments_exec, offset: 0 };
        self.num_segments_exec = self.num_segments_exec + 1;
        base
    }

    /// Probing read: `None` means the cell was not written yet, which is
    /// legal during hint execution.
    pub fn get(&self, addr: &Relocatable) -> (r: Option<&MaybeRelocatable>)
        ensures
            match r {
                Some(v) => self.contents().contains_key(*addr) && v@ == self.contents()[*addr],
                None => !self.contents().contains_key(*addr),
            },
    {
        let mut i: usize = self.cells.len();
        while i > 0
            invariant
                i <= self.cells@.len(),
                forall|j: int| i <= j < self.cells@.len() ==> self.cells@[j].0 != *addr,
            decreases i,
        {
            i = i - 1;
            if self.cells[i].0 == *addr {
                proof {
                    lemma_cells_map_found(self.cells@, i as int, *addr);
                }
                return Some(&self.cells[i].1);
            }
        }
        proof {
            lemma_cells_map_absent(self.cells@, *addr);
        }
        None
    }

    /// Typed read of an integer: fails with `ExpectedInteger` at the read
    /// address unless the cell is written and holds an integer.
    pub fn get_integer(&self, addr: &Relocatable) -> (r: Result<&num_bigint::BigInt, VirtualMachineError>)
        ensures
            match r {
                Ok(b) => self.contents().contains_key(*addr)
                    && self.contents()[*addr] == ValueModel::Int(big_value(*b)),
                Err(e) => {
                    &&& !self.contents().contains_key(*addr) || !(self.contents()[*addr] is Int)
                    &&& e == VirtualMachineError::ExpectedInteger(*addr)
                },
            },
    {
        match self.get(addr) {
            Some(MaybeRelocatable::Int(b)) => Ok(b),
            _ => Err(VirtualMachineError::ExpectedInteger(*addr)),
        }
    }

    /// Typed read of an address: fails with `ExpectedRelocatable` at the
    /// read address unless the cell is written and holds an address.
    pub fn get_relocatable(&self, addr: &Relocatable) -> (r: Result<Relocatable, VirtualMachineError>)
        ensures
            match r {
                Ok(a) => self.contents().contains_key(*addr)
                    && self.contents()[*addr] == ValueModel::Addr(a),
                Err(e) => {
                    &&& !self.contents().contains_key(*addr) || !(self.contents()[*addr] is Addr)
                    &&& e == VirtualMachineError::ExpectedRelocatable(*addr)
                },
            },
    {
        match self.get(addr) {
            Some(MaybeRelocatable::RelocatableValue(a)) => Ok(*a),
            _ => Err(VirtualMachineError::ExpectedRelocatable(*addr)),
        }
    }

    /// Write-once insert, as `write_outcome` states it: a failed write
    /// names the unallocated segment or the inconsistent cell, and leaves
    /// the contents unchanged.
    pub fn insert_value(&mut self, addr: &Relocatable, value: MaybeRelocatable) -> (r: Result<
        (),
        MemoryError,
    >)
        ensures
            final(self).num_segments() == old(self).num_segments(),
            match write_outcome(old(self).num_segments(), old(self).contents(), *addr, value@) {
                Some(after) => r is Ok && final(self).contents() == after,
                None => {
                    &&& final(self).contents() == old(self).contents()
                    &&& if addr.segment_index >= old(self).num_segments() {
                        r == Err::<(), MemoryError>(MemoryError::UnallocatedSegment(
                            addr.segment_index,
                            old(self).num_segments_exec,
                        ))
                    } else {
                        r == Err::<(), MemoryError>(MemoryError::InconsistentMemory(*addr))
                    }
                },
            },
    {
        if addr.segment_index >= self.num_segments_exec {
            return Err(MemoryError::UnallocatedSegment(addr.segment_index, self.num_segments_exec));
        }
        let existing = self.get(addr);
        match existing {
            None => {
                let ghost before = self.cells@;
                self.cells.push((*addr, value));
                proof {
                    assert(self.cells@.drop_last() =~= before);
                }
                Ok(())
            }
            Some(cur) => {
                let same = match (cur, &value) {
                    (MaybeRelocatable::Int(a), MaybeRelocatable::Int(b)) => big_eq(a, b),
                    (
                        MaybeRelocatable::RelocatableValue(a),
                        MaybeRelocatable::RelocatableValue(b),
                    ) => *a == *b,
                    _ => false,
                };
                if same {
                    proof {
                        assert(self.contents().insert(*addr, value@) =~= self.contents());
                    }
                    Ok(())
                } else {
                    Err(MemoryError::InconsistentMemory(*addr))
                }
            }
        }
    }
}

} // verus!
