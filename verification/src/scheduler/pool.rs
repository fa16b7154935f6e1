//! What is in use: cores and memory, and the identifiers of running work.
use vstd::prelude::*;

use crate::float64::{Float64, ZERO_BITS};
use crate::ids::Uuid;

verus! {

// ---------------------------------------------------------------------------
// Resource pool
// ---------------------------------------------------------------------------

/// Tracks CPU cores and RAM currently allocated to running containers.
///
/// All mutations go through `try_acquire`, which checks headroom and records
/// the allocation, and `release`, which is called when a container exits. Sums
/// and differences of gigabytes are handed in.
#[derive(Debug, Clone, Copy, PartialEq, Eq, Structural)]
pub struct ResourcePool {
    pub total_cpu: u32,
    pub total_ram_gb: Float64,
    pub used_cpu: u32,
    pub used_ram_gb: Float64,
}

impl ResourcePool {
    /// Whether no more is in use than there is.
    pub open spec fn within_total(self) -> bool {
        &&& self.used_cpu <= self.total_cpu
        &&& self.used_ram_gb.bits == ZERO_BITS || self.used_ram_gb.at_most(self.total_ram_gb)
    }

    /// Whether there is room for `cpu` more cores and for `ram_after` gigabytes
    /// in all.
    pub open spec fn has_room(self, cpu: u32, ram_after: Float64) -> bool {
        self.used_cpu + cpu <= self.total_cpu && ram_after.at_most(self.total_ram_gb)
    }

    /// The pool after an allocation.
    pub open spec fn acquired(self, cpu: u32, ram_after: Float64) -> ResourcePool {
        ResourcePool {
            used_cpu: (self.used_cpu + cpu) as u32,
            used_ram_gb: ram_after,
            ..self
        }
    }

    /// The pool after a release that leaves `ram_left` gigabytes, but not less
    /// than none, in use.
    pub open spec fn released(self, cpu: u32, ram_left: Float64) -> ResourcePool {
        ResourcePool {
            used_cpu: if self.used_cpu >= cpu {
                (self.used_cpu - cpu) as u32
            } else {
                0
            },
            used_ram_gb: if (Float64 { bits: ZERO_BITS }).below(ram_left) {
                ram_left
            } else {
                Float64 { bits: ZERO_BITS }
            },
            ..self
        }
    }

    /// A pool of which nothing is in use.
    pub fn new(total_cpu: u32, total_ram_gb: Float64) -> (r: Self)
        ensures
            r == (ResourcePool {
                total_cpu,
                total_ram_gb,
                used_cpu: 0,
                used_ram_gb: Float64 { bits: ZERO_BITS },
            }),
            r.within_total(),
    {
        Self { total_cpu, total_ram_gb, used_cpu: 0, used_ram_gb: Float64 { bits: ZERO_BITS } }
    }

    /// Returns `true` and records the allocation if there is enough headroom
    /// for `cpu` cores and for the gigabytes that would be in use after it.
    /// Returns `false` without modifying state if there is not.
    pub fn try_acquire(&mut self, cpu: u32, ram_after: Float64) -> (r: bool)
        ensures
            r == old(self).has_room(cpu, ram_after),
            *final(self) == (if r {
                old(self).acquired(cpu, ram_after)
            } else {
                *old(self)
            }),
    {
        if self.used_cpu as u64 + cpu as u64 <= self.total_cpu as u64 && ram_after.le(
            self.total_ram_gb,
        ) {
            self.used_cpu = self.used_cpu + cpu;
            self.used_ram_gb = ram_after;
            true
        } else {
            false
        }
    }

    /// Releases a previously acquired allocation. Must be called with the same
    /// cores as the corresponding `try_acquire`, and with the gigabytes that
    /// stay in use without it.
    pub fn release(&mut self, cpu: u32, ram_left: Float64)
        ensures
            *final(self) == old(self).released(cpu, ram_left),
    {
        self.used_cpu = if self.used_cpu >= cpu {
            self.used_cpu - cpu
        } else {
            0
        };
        self.used_ram_gb = if (Float64 { bits: ZERO_BITS }).lt(ram_left) {
            ram_left
        } else {
            Float64 { bits: ZERO_BITS }
        };
    }

    /// The cores that are free.
    pub fn available_cpu(&self) -> (r: u32)
        ensures
            r == (if self.total_cpu >= self.used_cpu {
                self.total_cpu - self.used_cpu
            } else {
                0
            }),
    {
        if self.total_cpu >= self.used_cpu {
            self.total_cpu - self.used_cpu
        } else {
            0
        }
    }

    /// Neither an allocation that fits nor a release takes a pool past what there
    /// is, as long as a release leaves no more in use than before it.
    pub proof fn pool_stays_within_total(pool: ResourcePool, cpu: u32, ram: Float64)
        requires
            pool.within_total(),
        ensures
            pool.has_room(cpu, ram) ==> pool.acquired(cpu, ram).within_total(),
            ram.at_most(pool.used_ram_gb) ==> pool.released(cpu, ram).within_total(),
    {
    }

    /// Releasing what was acquired gives the pool back as it was, where the
    /// gigabytes left are those that were in use before.
    pub proof fn release_undoes_acquire(pool: ResourcePool, cpu: u32, ram_after: Float64)
        requires
            pool.has_room(cpu, ram_after),
            pool.used_ram_gb.bits == ZERO_BITS || (Float64 { bits: ZERO_BITS }).below(
                pool.used_ram_gb,
            ),
        ensures
            pool.acquired(cpu, ram_after).released(cpu, pool.used_ram_gb) == pool,
    {
    }
}

// ---------------------------------------------------------------------------
// Running work
// ---------------------------------------------------------------------------

/// The identifiers of what is being worked on, each at most once.
#[derive(Debug)]
pub struct ActiveSet {
    pub ids: Vec<Uuid>,
}

impl View for ActiveSet {
    type V = Set<Uuid>;

    open spec fn view(&self) -> Set<Uuid> {
        self.ids@.to_set()
    }
}

impl ActiveSet {
    /// Whether no identifier occurs twice.
    pub open spec fn wf(self) -> bool {
        self.ids@.no_duplicates()
    }

    /// An empty set.
    pub fn new() -> (r: ActiveSet)
        ensures
            r.wf(),
            r@ == Set::<Uuid>::empty(),
    {
        let r = ActiveSet { ids: Vec::new() };
        assert(r@ =~= Set::<Uuid>::empty());
        r
    }

    fn position(&self, id: Uuid) -> (r: Option<usize>)
        ensures
            match r {
                Some(i) => i < self.ids.len() && self.ids[i as int] == id,
                None => !self.ids@.contains(id),
            },
    {
        for i in 0..self.ids.len()
            invariant
                forall|j: int| 0 <= j < i ==> self.ids[j] != id,
        {
            if self.ids[i] == id {
                return Some(i);
            }
        }
        None
    }

    /// Whether the identifier is being worked on.
    pub fn contains(&self, id: Uuid) -> (r: bool)
        ensures
            r == self@.contains(id),
    {
        let r = self.position(id).is_some();
        proof {
            if r {
                assert(self.ids@.contains(id));
            }
        }
        r
    }

    /// How much is being worked on.
    pub fn len(&self) -> (r: usize)
        requires
            self.wf(),
        ensures
            r == self@.len(),
    {
        proof {
            self.ids@.unique_seq_to_set();
        }
        self.ids.len()
    }

    /// Adds an identifier.
    pub fn insert(&mut self, id: Uuid)
        requires
            old(self).wf(),
        ensures
            final(self).wf(),
            final(self)@ == old(self)@.insert(id),
    {
        let ghost before = self.ids@;
        if self.position(id).is_none() {
            self.ids.push(id);
            proof {
                assert forall|x: Uuid| #[trigger] self.ids@.to_set().contains(x)
                    <==> before.to_set().insert(id).contains(x) by {
                    if before.contains(x) {
                        let k = choose|k: int| 0 <= k < before.len() && before[k] == x;
                        assert(self.ids@[k] == x);
                    }
                    if x == id {
                        assert(self.ids@[before.len() as int] == x);
                    }
                    if self.ids@.contains(x) && x != id {
                        let k = choose|k: int| 0 <= k < self.ids@.len() && self.ids@[k] == x;
                        assert(before[k] == x);
                    }
                }
                assert(self.ids@.to_set() =~= before.to_set().insert(id));
            }
        } else {
            assert(before.contains(id));
            assert(self.ids@.to_set() =~= before.to_set().insert(id));
        }
    }

    /// Takes an identifier out.
    pub fn remove(&mut self, id: Uuid)
        requires
            old(self).wf(),
        ensures
            final(self).wf(),
            final(self)@ == old(self)@.remove(id),
    {
        let ghost before = self.ids@;
        match self.position(id) {
            None => {
                assert(self.ids@.to_set() =~= before.to_set().remove(id));
            },
            Some(i) => {
                self.ids.remove(i);
                proof {
                    let after = self.ids@;
                    assert(after =~= before.remove(i as int));
                    assert forall|x: Uuid| #[trigger] after.to_set().contains(x)
                        <==> before.to_set().remove(id).contains(x) by {
                        if after.contains(x) {
                            let k = choose|k: int| 0 <= k < after.len() && after[k] == x;
                            let m = if k < i {
                                k
                            } else {
                                k + 1
                            };
                            assert(before[m] == x);
                            assert(before[i as int] == id);
                        }
                        if before.contains(x) && x != id {
                            let k = choose|k: int| 0 <= k < before.len() && before[k] == x;
                            let m = if k < i {
                                k
                            } else {
                                k - 1
                            };
                            assert(after[m] == x);
                        }
                    }
                    assert(after.to_set() =~= before.to_set().remove(id));
                }
            },
        }
    }
}

} // verus!
