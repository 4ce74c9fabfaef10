//! Fixed-capacity slot pools with generation-checked handle reuse.
//!
//! A pool is an array of slots plus a parallel generation counter per slot.
//! `add` stores a payload in the first free slot and bumps that slot's
//! generation; the returned handle references the new generation. Destroying
//! a slot clears its liveness marker but keeps the generation counter, so the
//! next occupant of the slot yields a handle the old one cannot be confused
//! with: validation checks range, generation and liveness, which turns
//! use-after-destroy into a cheap, detectable failure.

use vstd::prelude::*;
use vstd::pervasive::VecAdditionalExecFns;
use std::collections::HashMap;
use crate::handles::Dx12ResourceHandle;
use crate::handles::Dx12PipelineHandle;
use crate::d3d12::D3D12_RESOURCE_STATE_COMMON;
use crate::d3d12::DXGI_FORMAT_UNKNOWN;

verus! {

broadcast use vstd::std_specs::hash::group_hash_axioms;

/// Number of usable resource slots; slot 0 is reserved as invalid.
pub const MAX_NUM_RESOURCES: usize = 256;

/// Number of usable pipeline slots; slot 0 is reserved as invalid.
pub const MAX_NUM_PIPELINES: usize = 256;

/// The generation a slot carries after one more reuse. The counter is 16 bits
/// wide and wraps; one step never maps a value to itself.
pub open spec fn next_generation(g: u16) -> u16 {
    if g == 0xffff {
        0
    } else {
        (g + 1) as u16
    }
}

/// Payload of one resource slot: the native resource (0 when the slot is
/// free), its tracked usage state, and its format.
#[derive(Debug, Clone, Copy, PartialEq, Eq, Structural)]
pub struct ResourceState {
    pub ptr: u64,
    pub state: u32,
    pub format: u32,
}

impl ResourceState {
    /// An empty slot: no native object, common state, unknown format.
    pub fn new() -> (s: ResourceState)
        ensures
            s == (ResourceState {
                ptr: 0,
                state: D3D12_RESOURCE_STATE_COMMON,
                format: DXGI_FORMAT_UNKNOWN,
            }),
    {
        ResourceState { ptr: 0, state: D3D12_RESOURCE_STATE_COMMON, format: DXGI_FORMAT_UNKNOWN }
    }
}

/// Pool of resource slots with per-slot generation counters.
pub struct ResourcePool {
    pub resources: Vec<ResourceState>,
    pub generations: Vec<u16>,
}

impl ResourcePool {
    /// Structural well-formedness: both arrays span slot 0 through
    /// `MAX_NUM_RESOURCES`, and the reserved slot 0 is never live.
    pub open spec fn wf(self) -> bool {
        &&& self.resources@.len() == MAX_NUM_RESOURCES + 1
        &&& self.generations@.len() == MAX_NUM_RESOURCES + 1
        &&& self.resources@[0].ptr == 0
    }

    /// A slot is live while it holds a native object.
    pub open spec fn slot_live(self, i: int) -> bool {
        self.resources@[i].ptr != 0
    }

    /// A handle resolves iff its index is a real slot, the slot still carries
    /// the handle's generation, and the slot is live.
    pub open spec fn handle_valid(self, h: Dx12ResourceHandle) -> bool {
        &&& 1 <= h.index <= MAX_NUM_RESOURCES
        &&& self.generations@[h.index as int] == h.generation
        &&& self.slot_live(h.index as int)
    }

    /// Some usable slot is free.
    pub open spec fn has_free_slot(self) -> bool {
        exists|i: int| 1 <= i <= MAX_NUM_RESOURCES && !(#[trigger] self.slot_live(i))
    }

    /// Exact effect of `add`: `None` iff the pool was full (and then nothing
    /// changed); otherwise the first free slot received the payload and a
    /// bumped generation, and the handle references exactly that.
    pub open spec fn add_post(
        pre: ResourcePool,
        post: ResourcePool,
        ptr: u64,
        state: u32,
        format: u32,
        r: Option<Dx12ResourceHandle>,
    ) -> bool {
        match r {
            None => !pre.has_free_slot() && post == pre,
            Some(h) => {
                let i = h.index as int;
                &&& pre.has_free_slot()
                &&& 1 <= i <= MAX_NUM_RESOURCES
                &&& !pre.slot_live(i)
                &&& forall|j: int| 1 <= j < i ==> pre.slot_live(j)
                &&& h.generation == next_generation(pre.generations@[i])
                &&& post.resources@ == pre.resources@.update(i, ResourceState { ptr, state, format })
                &&& post.generations@ == pre.generations@.update(i, next_generation(pre.generations@[i]))
            },
        }
    }

    /// Exact effect of `destroy`: the handle's slot loses its native object
    /// and reverts to common state and unknown format; its generation counter
    /// and every other slot stay untouched.
    pub open spec fn destroy_post(pre: ResourcePool, post: ResourcePool, h: Dx12ResourceHandle) -> bool {
        &&& post.resources@ == pre.resources@.update(
            h.index as int,
            ResourceState {
                ptr: 0,
                state: D3D12_RESOURCE_STATE_COMMON,
                format: DXGI_FORMAT_UNKNOWN,
            },
        )
        &&& post.generations@ == pre.generations@
    }

    /// Fresh pool: every slot free, every generation counter zero.
    pub fn new() -> (p: ResourcePool)
        ensures
            p.wf(),
            forall|i: int| 0 <= i <= MAX_NUM_RESOURCES ==> (#[trigger] p.resources@[i]).ptr == 0,
            forall|i: int| 0 <= i <= MAX_NUM_RESOURCES ==> p.generations@[i] == 0,
    {
        let mut resources: Vec<ResourceState> = Vec::new();
        let mut generations: Vec<u16> = Vec::new();
        let mut i: usize = 0;
        while i < MAX_NUM_RESOURCES + 1
            invariant
                i <= MAX_NUM_RESOURCES + 1,
                resources@.len() == i,
                generations@.len() == i,
                forall|j: int| 0 <= j < i ==> resources@[j].ptr == 0,
                forall|j: int| 0 <= j < i ==> generations@[j] == 0,
            decreases MAX_NUM_RESOURCES + 1 - i,
        {
            resources.push(ResourceState::new());
            generations.push(0);
            i = i + 1;
        }
        ResourcePool { resources, generations }
    }

    /// Generation-checked validation; catches stale handles and reserved or
    /// out-of-range indices.
    pub fn validate(&self, h: Dx12ResourceHandle) -> (ok: bool)
        requires
            self.wf(),
        ensures
            ok == self.handle_valid(h),
    {
        let index = h.index as usize;
        index >= 1 && index <= MAX_NUM_RESOURCES && self.generations[index] == h.generation
            && self.resources[index].ptr != 0
    }

    /// Stores a payload in the first free slot and returns a handle carrying
    /// that slot's bumped generation; `None` iff no slot is free.
    pub fn add(&mut self, ptr: u64, state: u32, format: u32) -> (r: Option<Dx12ResourceHandle>)
        requires
            old(self).wf(),
            ptr != 0,
        ensures
            final(self).wf(),
            ResourcePool::add_post(*old(self), *final(self), ptr, state, format, r),
            r matches Some(h) ==> final(self).handle_valid(h),
    {
        let mut slot_idx: usize = 0;
        let mut i: usize = 1;
        while i <= MAX_NUM_RESOURCES && self.resources[i].ptr != 0
            invariant
                self.resources@ == old(self).resources@,
                self.generations@ == old(self).generations@,
                old(self).wf(),
                1 <= i <= MAX_NUM_RESOURCES + 1,
                forall|j: int| 1 <= j < i ==> old(self).slot_live(j),
            decreases MAX_NUM_RESOURCES + 1 - i,
        {
            i = i + 1;
        }
        if i > MAX_NUM_RESOURCES {
            assert(forall|j: int| 1 <= j <= MAX_NUM_RESOURCES ==> self.slot_live(j));
            return None;
        }
        slot_idx = i;
        proof {
            assert(!old(self).slot_live(slot_idx as int));
            assert(old(self).has_free_slot());
        }

        self.resources.set(slot_idx, ResourceState { ptr, state, format });
        let g = self.generations[slot_idx];
        let g2: u16 = if g == 0xffff {
            0
        } else {
            g + 1
        };
        self.generations.set(slot_idx, g2);

        Some(Dx12ResourceHandle { index: slot_idx as u16, generation: g2 })
    }

    /// Releases the handle's slot for reuse and hands back the native object
    /// identifier the caller must release. The generation counter is kept, so
    /// the slot's next occupant gets a different handle.
    pub fn destroy(&mut self, h: Dx12ResourceHandle) -> (ptr: u64)
        requires
            old(self).wf(),
            old(self).handle_valid(h),
        ensures
            final(self).wf(),
            ResourcePool::destroy_post(*old(self), *final(self), h),
            ptr == old(self).resources@[h.index as int].ptr,
            !final(self).handle_valid(h),
    {
        let index = h.index as usize;
        let ptr = self.resources[index].ptr;
        self.resources.set(
            index,
            ResourceState {
                ptr: 0,
                state: D3D12_RESOURCE_STATE_COMMON,
                format: DXGI_FORMAT_UNKNOWN,
            },
        );
        ptr
    }

    /// Whole-pool teardown: clears every slot and zeroes every generation
    /// counter; returns, per usable slot, the native object identifier it
    /// held (0 for slots that were free) for the caller to release.
    pub fn destroy_all(&mut self) -> (released: Vec<u64>)
        requires
            old(self).wf(),
        ensures
            final(self).wf(),
            released@.len() == MAX_NUM_RESOURCES,
            forall|j: int| 0 <= j < MAX_NUM_RESOURCES ==> released@[j] == old(
                self,
            ).resources@[j + 1].ptr,
            forall|i: int| 0 <= i <= MAX_NUM_RESOURCES ==> !final(self).slot_live(i),
            forall|i: int| 0 <= i <= MAX_NUM_RESOURCES ==> final(self).generations@[i] == 0,
    {
        let mut released: Vec<u64> = Vec::new();
        let mut i: usize = 1;
        while i <= MAX_NUM_RESOURCES
            invariant
                old(self).wf(),
                self.wf(),
                1 <= i <= MAX_NUM_RESOURCES + 1,
                released@.len() == i - 1,
                self.resources@.len() == MAX_NUM_RESOURCES + 1,
                self.generations@.len() == MAX_NUM_RESOURCES + 1,
                forall|j: int| 0 <= j < i - 1 ==> released@[j] == old(self).resources@[j + 1].ptr,
                forall|j: int| i <= j <= MAX_NUM_RESOURCES ==> self.resources@[j] == old(
                    self,
                ).resources@[j],
                forall|j: int| 1 <= j < i ==> self.resources@[j].ptr == 0,
                forall|j: int| 1 <= j < i ==> self.generations@[j] == 0,
            decreases MAX_NUM_RESOURCES + 1 - i,
        {
            let ghost pre = *self;
            released.push(self.resources[i].ptr);
            self.resources.set(
                i,
                ResourceState {
                    ptr: 0,
                    state: D3D12_RESOURCE_STATE_COMMON,
                    format: DXGI_FORMAT_UNKNOWN,
                },
            );
            self.generations.set(i, 0);
            assert(forall|j: int| 1 <= j < i ==> self.resources@[j] == pre.resources@[j]);
            assert(forall|j: int| 1 <= j < i ==> self.generations@[j] == pre.generations@[j]);
            assert(!self.slot_live(i as int));
            i = i + 1;
        }
        self.generations.set(0, 0);
        released
    }
}

/// Payload of one pipeline slot: the native pipeline-state object and root
/// signature (both 0 while the slot is free; live slots hold both), plus the
/// content hash under which the pipeline cache registered the slot.
#[derive(Debug, Clone, Copy, PartialEq, Eq, Structural)]
pub struct PipelineState {
    pub pso: u64,
    pub rsignature: u64,
    pub hash: u64,
}

impl PipelineState {
    /// An empty slot.
    pub fn new() -> (s: PipelineState)
        ensures
            s == (PipelineState { pso: 0, rsignature: 0, hash: 0 }),
    {
        PipelineState { pso: 0, rsignature: 0, hash: 0 }
    }
}

/// Pool of pipeline slots with per-slot generation counters, plus the
/// content-addressed cache map from description hash to pooled handle.
pub struct PipelinePool {
    pub pipelines: Vec<PipelineState>,
    pub generations: Vec<u16>,
    pub map: HashMap<u64, Dx12PipelineHandle>,
}

impl PipelinePool {
    /// A slot is live while it holds a native pipeline object.
    pub open spec fn slot_live(self, i: int) -> bool {
        self.pipelines@[i].pso != 0
    }

    /// Every cache entry resolves to a live slot that still carries the
    /// entry's generation and was registered under exactly that hash.
    pub open spec fn cache_entry_ok(self, k: u64) -> bool {
        let h = self.map@[k];
        &&& 1 <= h.index <= MAX_NUM_PIPELINES
        &&& self.generations@[h.index as int] == h.generation
        &&& self.pipelines@[h.index as int].pso != 0
        &&& self.pipelines@[h.index as int].hash == k
    }

    /// The cache map and the slots agree: entries point at live slots
    /// registered under their key, and every live slot is registered under
    /// its stored hash. Together the two directions make the map injective:
    /// each handle is the image of exactly one hash.
    pub open spec fn cache_consistent(self) -> bool {
        &&& forall|k: u64| #[trigger] self.map@.dom().contains(k) ==> self.cache_entry_ok(k)
        &&& forall|i: int|
            1 <= i <= MAX_NUM_PIPELINES && (#[trigger] self.pipelines@[i]).pso != 0 ==> {
                &&& self.map@.dom().contains(self.pipelines@[i].hash)
                &&& self.map@[self.pipelines@[i].hash] == (Dx12PipelineHandle {
                    index: i as u16,
                    generation: self.generations@[i],
                })
            }
    }

    /// Structural well-formedness: full-length arrays, reserved slot 0 free,
    /// each slot holding both native objects or neither, and a cache map
    /// consistent with the slots.
    pub open spec fn wf(self) -> bool {
        &&& self.pipelines@.len() == MAX_NUM_PIPELINES + 1
        &&& self.generations@.len() == MAX_NUM_PIPELINES + 1
        &&& self.pipelines@[0].pso == 0
        &&& self.pipelines@[0].rsignature == 0
        &&& forall|i: int|
            0 <= i <= MAX_NUM_PIPELINES ==> (((#[trigger] self.pipelines@[i]).pso == 0) <==> self.pipelines@[i].rsignature == 0)
        &&& self.cache_consistent()
    }

    /// A handle resolves iff its index is a real slot, the slot still carries
    /// the handle's generation, and the slot is live.
    pub open spec fn handle_valid(self, h: Dx12PipelineHandle) -> bool {
        &&& 1 <= h.index <= MAX_NUM_PIPELINES
        &&& self.generations@[h.index as int] == h.generation
        &&& self.slot_live(h.index as int)
    }

    /// Some usable slot is free.
    pub open spec fn has_free_slot(self) -> bool {
        exists|i: int| 1 <= i <= MAX_NUM_PIPELINES && !(#[trigger] self.slot_live(i))
    }

    /// Exact effect of `add`: `None` iff the pool was full (and then nothing
    /// changed); otherwise the first free slot received both native objects
    /// and a bumped generation, and the cache map gained exactly the entry
    /// from `hash` to the returned handle.
    pub open spec fn add_post(
        pre: PipelinePool,
        post: PipelinePool,
        hash: u64,
        pso: u64,
        rsignature: u64,
        r: Option<Dx12PipelineHandle>,
    ) -> bool {
        match r {
            None => !pre.has_free_slot() && post.pipelines@ == pre.pipelines@
                && post.generations@ == pre.generations@ && post.map@ == pre.map@,
            Some(h) => {
                let i = h.index as int;
                &&& pre.has_free_slot()
                &&& 1 <= i <= MAX_NUM_PIPELINES
                &&& !pre.slot_live(i)
                &&& forall|j: int| 1 <= j < i ==> pre.slot_live(j)
                &&& h.generation == next_generation(pre.generations@[i])
                &&& post.pipelines@ == pre.pipelines@.update(
                    i,
                    PipelineState { pso, rsignature, hash },
                )
                &&& post.generations@ == pre.generations@.update(
                    i,
                    next_generation(pre.generations@[i]),
                )
                &&& post.map@ == pre.map@.insert(hash, h)
            },
        }
    }

    /// Exact effect of `destroy`: the handle's slot loses both native
    /// objects, the cache entry that was registered for the slot disappears,
    /// and the generation counters stay untouched.
    pub open spec fn destroy_post(pre: PipelinePool, post: PipelinePool, h: Dx12PipelineHandle) -> bool {
        &&& post.pipelines@ == pre.pipelines@.update(
            h.index as int,
            PipelineState { pso: 0, rsignature: 0, hash: 0 },
        )
        &&& post.generations@ == pre.generations@
        &&& post.map@ == pre.map@.remove(pre.pipelines@[h.index as int].hash)
    }

    /// Fresh pool: every slot free, every generation zero, empty cache map.
    pub fn new() -> (p: PipelinePool)
        ensures
            p.wf(),
            forall|i: int| 0 <= i <= MAX_NUM_PIPELINES ==> (#[trigger] p.pipelines@[i]).pso == 0,
            forall|i: int| 0 <= i <= MAX_NUM_PIPELINES ==> p.generations@[i] == 0,
            p.map@ == Map::<u64, Dx12PipelineHandle>::empty(),
    {
        let mut pipelines: Vec<PipelineState> = Vec::new();
        let mut generations: Vec<u16> = Vec::new();
        let mut i: usize = 0;
        while i < MAX_NUM_PIPELINES + 1
            invariant
                i <= MAX_NUM_PIPELINES + 1,
                pipelines@.len() == i,
                generations@.len() == i,
                forall|j: int| 0 <= j < i ==> pipelines@[j] == (PipelineState {
                    pso: 0,
                    rsignature: 0,
                    hash: 0,
                }),
                forall|j: int| 0 <= j < i ==> generations@[j] == 0,
            decreases MAX_NUM_PIPELINES + 1 - i,
        {
            pipelines.push(PipelineState::new());
            generations.push(0);
            i = i + 1;
        }
        let map: HashMap<u64, Dx12PipelineHandle> = HashMap::new();
        PipelinePool { pipelines, generations, map }
    }

    /// Generation-checked validation; catches stale handles and reserved or
    /// out-of-range indices.
    pub fn validate(&self, h: Dx12PipelineHandle) -> (ok: bool)
        requires
            self.wf(),
        ensures
            ok == self.handle_valid(h),
    {
        let index = h.index as usize;
        index >= 1 && index <= MAX_NUM_PIPELINES && self.generations[index] == h.generation
            && self.pipelines[index].pso != 0
    }

    /// Looks up the cache by content hash.
    pub fn lookup(&self, hash: u64) -> (r: Option<Dx12PipelineHandle>)
        requires
            self.wf(),
        ensures
            r is Some <==> self.map@.dom().contains(hash),
            r matches Some(h) ==> h == self.map@[hash] && self.handle_valid(h),
    {
        match self.map.get(&hash) {
            Some(h) => Some(*h),
            None => None,
        }
    }

    /// Stores a pipeline in the first free slot under the given content hash
    /// and registers the hash in the cache map; `None` iff no slot is free.
    pub fn add(&mut self, hash: u64, pso: u64, rsignature: u64) -> (r: Option<Dx12PipelineHandle>)
        requires
            old(self).wf(),
            pso != 0,
            rsignature != 0,
            !old(self).map@.dom().contains(hash),
        ensures
            final(self).wf(),
            PipelinePool::add_post(*old(self), *final(self), hash, pso, rsignature, r),
            r matches Some(h) ==> final(self).handle_valid(h) && final(self).map@.dom().contains(
                hash,
            ) && final(self).map@[hash] == h,
    {
        let mut i: usize = 1;
        while i <= MAX_NUM_PIPELINES && self.pipelines[i].pso != 0
            invariant
                self.pipelines@ == old(self).pipelines@,
                self.generations@ == old(self).generations@,
                self.map@ == old(self).map@,
                old(self).wf(),
                1 <= i <= MAX_NUM_PIPELINES + 1,
                forall|j: int| 1 <= j < i ==> old(self).slot_live(j),
            decreases MAX_NUM_PIPELINES + 1 - i,
        {
            i = i + 1;
        }
        if i > MAX_NUM_PIPELINES {
            assert(forall|j: int| 1 <= j <= MAX_NUM_PIPELINES ==> self.slot_live(j));
            return None;
        }
        let slot_idx = i;
        proof {
            assert(!old(self).slot_live(slot_idx as int));
            assert(old(self).has_free_slot());
        }

        self.pipelines.set(slot_idx, PipelineState { pso, rsignature, hash });
        let g = self.generations[slot_idx];
        let g2: u16 = if g == 0xffff {
            0
        } else {
            g + 1
        };
        self.generations.set(slot_idx, g2);
        let h = Dx12PipelineHandle { index: slot_idx as u16, generation: g2 };
        self.map.insert(hash, h);

        proof {
            let pre = *old(self);
            let post = *self;
            let i = slot_idx as int;
            assert forall|k: u64| #[trigger] post.map@.dom().contains(k) implies post.cache_entry_ok(k) by {
                if k == hash {
                    assert(post.map@[k] == h);
                } else {
                    assert(pre.map@.dom().contains(k));
                    assert(pre.cache_entry_ok(k));
                    assert(pre.map@[k].index as int != i);
                }
            }
            assert forall|j: int|
                1 <= j <= MAX_NUM_PIPELINES && (#[trigger] post.pipelines@[j]).pso != 0 implies {
                &&& post.map@.dom().contains(post.pipelines@[j].hash)
                &&& post.map@[post.pipelines@[j].hash] == (Dx12PipelineHandle {
                    index: j as u16,
                    generation: post.generations@[j],
                })
            } by {
                if j == i {
                } else {
                    assert(pre.pipelines@[j].pso != 0);
                    assert(pre.map@.dom().contains(pre.pipelines@[j].hash));
                    assert(pre.pipelines@[j].hash != hash);
                }
            }
        }
        Some(h)
    }

    /// Releases the handle's slot and removes the one cache entry registered
    /// for it; returns both native object identifiers for the caller to
    /// release. The removed hash is provably the only key that mapped to the
    /// handle.
    pub fn destroy(&mut self, h: Dx12PipelineHandle) -> (r: (u64, u64))
        requires
            old(self).wf(),
            old(self).handle_valid(h),
        ensures
            final(self).wf(),
            PipelinePool::destroy_post(*old(self), *final(self), h),
            r.0 == old(self).pipelines@[h.index as int].pso,
            r.1 == old(self).pipelines@[h.index as int].rsignature,
            forall|k: u64|
                #[trigger] old(self).map@.dom().contains(k) && old(self).map@[k] == h <==> k == old(
                    self,
                ).pipelines@[h.index as int].hash,
            !final(self).handle_valid(h),
    {
        let index = h.index as usize;
        let pso = self.pipelines[index].pso;
        let rsignature = self.pipelines[index].rsignature;
        let key = self.pipelines[index].hash;
        proof {
            assert(old(self).map@.dom().contains(key) && old(self).map@[key] == h);
        }
        self.map.remove(&key);
        self.pipelines.set(index, PipelineState { pso: 0, rsignature: 0, hash: 0 });

        proof {
            let pre = *old(self);
            let post = *self;
            let i = h.index as int;
            assert forall|k: u64| #[trigger] post.map@.dom().contains(k) implies post.cache_entry_ok(k) by {
                assert(pre.map@.dom().contains(k));
                assert(pre.cache_entry_ok(k));
                assert(k != key);
                assert(pre.map@[k].index as int != i);
            }
            assert forall|j: int|
                1 <= j <= MAX_NUM_PIPELINES && (#[trigger] post.pipelines@[j]).pso != 0 implies {
                &&& post.map@.dom().contains(post.pipelines@[j].hash)
                &&& post.map@[post.pipelines@[j].hash] == (Dx12PipelineHandle {
                    index: j as u16,
                    generation: post.generations@[j],
                })
            } by {
                assert(j != i);
                assert(pre.pipelines@[j].pso != 0);
                assert(pre.map@.dom().contains(pre.pipelines@[j].hash));
                if pre.pipelines@[j].hash == key {
                    assert(pre.map@[key] == (Dx12PipelineHandle {
                        index: j as u16,
                        generation: pre.generations@[j],
                    }));
                    assert(pre.map@[key] == h);
                    assert(false);
                }
            }
            assert forall|k: u64|
                #[trigger] pre.map@.dom().contains(k) && pre.map@[k] == h implies k == key by {
                assert(pre.cache_entry_ok(k));
                assert(pre.pipelines@[h.index as int].hash == k);
            }
        }
        (pso, rsignature)
    }

    /// Whole-pool teardown: clears every slot, zeroes every generation, and
    /// empties the cache map; returns, per usable slot, the pair of native
    /// object identifiers it held (0 for slots that were free).
    pub fn destroy_all(&mut self) -> (released: Vec<(u64, u64)>)
        requires
            old(self).wf(),
        ensures
            final(self).wf(),
            released@.len() == MAX_NUM_PIPELINES,
            forall|j: int|
                0 <= j < MAX_NUM_PIPELINES ==> #[trigger] released@[j] == (
                old(self).pipelines@[j + 1].pso,
                old(self).pipelines@[j + 1].rsignature,
                ),
            forall|i: int| 0 <= i <= MAX_NUM_PIPELINES ==> !final(self).slot_live(i),
            forall|i: int| 0 <= i <= MAX_NUM_PIPELINES ==> final(self).generations@[i] == 0,
            final(self).map@ == Map::<u64, Dx12PipelineHandle>::empty(),
    {
        let mut released: Vec<(u64, u64)> = Vec::new();
        let mut i: usize = 1;
        while i <= MAX_NUM_PIPELINES
            invariant
                old(self).wf(),
                1 <= i <= MAX_NUM_PIPELINES + 1,
                released@.len() == i - 1,
                self.pipelines@.len() == MAX_NUM_PIPELINES + 1,
                self.generations@.len() == MAX_NUM_PIPELINES + 1,
                forall|j: int|
                    0 <= j < i - 1 ==> #[trigger] released@[j] == (
                    old(self).pipelines@[j + 1].pso,
                    old(self).pipelines@[j + 1].rsignature,
                    ),
                forall|j: int|
                    i <= j <= MAX_NUM_PIPELINES ==> self.pipelines@[j] == old(self).pipelines@[j],
                forall|j: int| 1 <= j < i ==> self.pipelines@[j] == (PipelineState {
                    pso: 0,
                    rsignature: 0,
                    hash: 0,
                }),
                forall|j: int| 1 <= j < i ==> self.generations@[j] == 0,
                self.pipelines@[0] == old(self).pipelines@[0],
            decreases MAX_NUM_PIPELINES + 1 - i,
        {
            let ghost pre = *self;
            released.push((self.pipelines[i].pso, self.pipelines[i].rsignature));
            self.pipelines.set(i, PipelineState { pso: 0, rsignature: 0, hash: 0 });
            self.generations.set(i, 0);
            assert(forall|j: int| 1 <= j < i ==> self.pipelines@[j] == pre.pipelines@[j]);
            assert(forall|j: int| 1 <= j < i ==> self.generations@[j] == pre.generations@[j]);
            i = i + 1;
        }
        self.generations.set(0, 0);
        self.map.clear();
        released
    }
}

/// The pipeline-pool analogue of generation-checked staleness: a handle whose
/// slot was destroyed keeps failing validation after the slot is reused.
pub proof fn lemma_stale_pipeline_handle_fails_validation(
    p0: PipelinePool,
    p1: PipelinePool,
    p2: PipelinePool,
    h: Dx12PipelineHandle,
    hash: u64,
    pso: u64,
    rsignature: u64,
    h2: Dx12PipelineHandle,
)
    requires
        p0.wf(),
        p0.handle_valid(h),
        PipelinePool::destroy_post(p0, p1, h),
        PipelinePool::add_post(p1, p2, hash, pso, rsignature, Some(h2)),
        h2.index == h.index,
    ensures
        !p1.handle_valid(h),
        !p2.handle_valid(h),
        h2.generation == next_generation(h.generation),
        h2.generation != h.generation,
{
    assert(p1.pipelines@[h.index as int].pso == 0);
    assert(p2.generations@[h.index as int] == next_generation(h.generation));
}

/// A handle made stale by destroying its slot fails validation at once, and
/// keeps failing after the slot has been reused: the reuse carries a bumped
/// generation, which never equals the stale handle's.
pub proof fn lemma_stale_handle_fails_validation(
    p0: ResourcePool,
    p1: ResourcePool,
    p2: ResourcePool,
    h: Dx12ResourceHandle,
    ptr: u64,
    state: u32,
    format: u32,
    h2: Dx12ResourceHandle,
)
    requires
        p0.wf(),
        p0.handle_valid(h),
        ResourcePool::destroy_post(p0, p1, h),
        ResourcePool::add_post(p1, p2, ptr, state, format, Some(h2)),
        h2.index == h.index,
    ensures
        !p1.handle_valid(h),
        !p2.handle_valid(h),
        h2.generation == next_generation(h.generation),
        h2.generation != h.generation,
{
    assert(p1.resources@[h.index as int].ptr == 0);
    assert(p2.generations@[h.index as int] == next_generation(h.generation));
}

} // verus!
