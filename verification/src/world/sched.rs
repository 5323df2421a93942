//! The generation scheduler: which chunks of a region are asked for, and
//! which are still awaited.
//!
//! The scheduler hands positions to a queue that worker threads read. A
//! position is pending from the moment it is queued until a worker reports
//! it as done.

use crate::world::chunk_set::ChunkSet;
use crate::world::store::World;
use crate::world::{Chunk, ChunkPos};
use flume::{Receiver, Sender};
use vstd::prelude::*;

verus! {

/// `flume::Sender`, the writing end of a queue, taken as it is.
#[verifier::external_type_specification]
#[verifier::external_body]
#[verifier::reject_recursive_types(T)]
pub struct ExSender<T>(Sender<T>);

/// `flume::Receiver`, the reading end of a queue, taken as it is.
#[verifier::external_type_specification]
#[verifier::external_body]
#[verifier::reject_recursive_types(T)]
pub struct ExReceiver<T>(Receiver<T>);

/// `flume::unbounded`: the two ends of a new queue without a bound.
#[verifier::external_body]
fn queue_new() -> (ends: (Sender<ChunkPos>, Receiver<ChunkPos>)) {
    flume::unbounded()
}

/// `flume::Sender::send`: queues `pos`. It fails where every receiver is
/// gone; whether it did is the result.
#[verifier::external_body]
fn queue_send(queue: &Sender<ChunkPos>, pos: ChunkPos) -> (sent: bool) {
    queue.send(pos).is_ok()
}

/// Whether `p` lies in the square of chunks around (`cx`, `cz`) that reaches
/// `r` chunks to each side.
pub open spec fn spec_in_region(p: ChunkPos, cx: i32, cz: i32, r: i32) -> bool {
    cx - r <= p.x <= cx + r && cz - r <= p.z <= cz + r
}

/// The chunks of a region that are neither pending nor in the world.
pub open spec fn spec_missing(
    world: Map<ChunkPos, Chunk>,
    pending: Set<ChunkPos>,
    cx: i32,
    cz: i32,
    r: i32,
) -> Set<ChunkPos> {
    Set::new(
        |p: ChunkPos| spec_in_region(p, cx, cz, r) && !pending.contains(p) && !world.contains_key(p),
    )
}

/// Whether `p` comes before (`x`, `z`) where a region is walked x by x, and
/// z by z within one x.
pub open spec fn spec_walked(p: ChunkPos, x: int, z: int) -> bool {
    p.x < x || (p.x == x && p.z < z)
}

/// Asking for a region a second time asks for nothing: once the missing
/// chunks of a region are pending, none of the region is missing.
pub proof fn lemma_second_request_is_empty(
    world: Map<ChunkPos, Chunk>,
    pending: Set<ChunkPos>,
    cx: i32,
    cz: i32,
    r: i32,
)
    ensures
        spec_missing(world, pending.union(spec_missing(world, pending, cx, cz, r)), cx, cz, r)
            == Set::<ChunkPos>::empty(),
{
    assert(spec_missing(world, pending.union(spec_missing(world, pending, cx, cz, r)), cx, cz, r)
        =~= Set::<ChunkPos>::empty());
}

/// The first and last value of a coordinate in a region, cut to the range
/// of chunk coordinates.
fn region_bounds(center: i32, r: i32) -> (bounds: (i64, i64))
    ensures
        bounds.0 == if center - r < i32::MIN {
            i32::MIN as int
        } else {
            center - r
        },
        bounds.1 == if center + r > i32::MAX {
            i32::MAX as int
        } else {
            center + r
        },
{
    let low: i64 = center as i64 - r as i64;
    let high: i64 = center as i64 + r as i64;
    (
        if low < i32::MIN as i64 {
            i32::MIN as i64
        } else {
            low
        },
        if high > i32::MAX as i64 {
            i32::MAX as i64
        } else {
            high
        },
    )
}

/// The bookkeeping of chunk generation.
pub struct GenerationScheduler {
    pending: ChunkSet,
    request_tx: Sender<ChunkPos>,
}

impl GenerationScheduler {
    /// The positions that are queued and not yet reported as done.
    pub closed spec fn pending(&self) -> Set<ChunkPos> {
        self.pending@
    }

    /// A scheduler with nothing pending, and the reading end of its queue.
    pub fn new() -> (made: (GenerationScheduler, Receiver<ChunkPos>))
        ensures
            made.0.pending() == Set::<ChunkPos>::empty(),
    {
        let (request_tx, request_rx) = queue_new();
        (GenerationScheduler { pending: ChunkSet::new(), request_tx }, request_rx)
    }

    pub fn is_pending(&self, pos: ChunkPos) -> (pending: bool)
        ensures
            pending == self.pending().contains(pos),
    {
        self.pending.contains(pos)
    }

    /// Queues the chunk at (`x`, `z`) unless it is pending or in the world,
    /// and says whether it did.
    fn request_chunk(&mut self, world: &World, x: i32, z: i32) -> (queued: bool)
        ensures
            queued == (!old(self).pending().contains(ChunkPos { x, z }) && !world@.contains_key(
                ChunkPos { x, z },
            )),
            final(self).pending() == if queued {
                old(self).pending().insert(ChunkPos { x, z })
            } else {
                old(self).pending()
            },
    {
        let pos = ChunkPos::new(x, z);
        if !self.pending.contains(pos) && !world.has_chunk(pos) {
            self.pending.insert(pos);
            let _ = queue_send(&self.request_tx, pos);
            true
        } else {
            false
        }
    }

    /// Queues every chunk of the region around (`center_x`, `center_z`)
    /// that is neither pending nor in the world, and marks it as pending.
    /// The result lists what was queued, each position once.
    pub fn request_region(&mut self, world: &World, center_x: i32, center_z: i32, r: i32) -> (queued:
        Vec<ChunkPos>)
        ensures
            queued@.no_duplicates(),
            queued@.to_set() == spec_missing(world@, old(self).pending(), center_x, center_z, r),
            final(self).pending() == old(self).pending().union(queued@.to_set()),
    {
        let (x_low, x_high) = region_bounds(center_x, r);
        let (z_low, z_high) = region_bounds(center_z, r);
        let mut queued: Vec<ChunkPos> = Vec::new();
        let ghost before = self.pending();
        let mut x: i64 = x_low;
        assert(self.pending() =~= before.union(queued@.to_set()));
        while x <= x_high
            invariant
                x_low <= x,
                i32::MIN <= x_low,
                x_high <= i32::MAX,
                i32::MIN <= z_low,
                z_high <= i32::MAX,
                x_low == if center_x - r < i32::MIN {
                    i32::MIN as int
                } else {
                    center_x - r
                },
                x_high == if center_x + r > i32::MAX {
                    i32::MAX as int
                } else {
                    center_x + r
                },
                z_low == if center_z - r < i32::MIN {
                    i32::MIN as int
                } else {
                    center_z - r
                },
                z_high == if center_z + r > i32::MAX {
                    i32::MAX as int
                } else {
                    center_z + r
                },
                queued@.no_duplicates(),
                self.pending() == before.union(queued@.to_set()),
                forall|p: ChunkPos|
                    queued@.contains(p) <==> spec_missing(world@, before, center_x, center_z, r).contains(
                        p,
                    ) && p.x < x,
            decreases x_high - x + 1,
        {
            let mut z: i64 = z_low;
            while z <= z_high
                invariant
                    x_low <= x <= x_high,
                    z_low <= z,
                    i32::MIN <= x_low,
                    x_high <= i32::MAX,
                    i32::MIN <= z_low,
                    z_high <= i32::MAX,
                    x_low == if center_x - r < i32::MIN {
                        i32::MIN as int
                    } else {
                        center_x - r
                    },
                    x_high == if center_x + r > i32::MAX {
                        i32::MAX as int
                    } else {
                        center_x + r
                    },
                    z_low == if center_z - r < i32::MIN {
                        i32::MIN as int
                    } else {
                        center_z - r
                    },
                    z_high == if center_z + r > i32::MAX {
                        i32::MAX as int
                    } else {
                        center_z + r
                    },
                    queued@.no_duplicates(),
                    self.pending() == before.union(queued@.to_set()),
                    forall|p: ChunkPos|
                        queued@.contains(p) <==> spec_missing(
                            world@,
                            before,
                            center_x,
                            center_z,
                            r,
                        ).contains(p) && spec_walked(p, x as int, z as int),
                decreases z_high - z + 1,
            {
                let ghost listed = queued@;
                let ghost missing = spec_missing(world@, before, center_x, center_z, r);
                let pos = ChunkPos::new(x as i32, z as i32);
                assert(spec_in_region(pos, center_x, center_z, r));
                assert(forall|p: ChunkPos|
                    spec_walked(p, x as int, z + 1) <==> spec_walked(p, x as int, z as int) || p
                        == pos);
                if self.request_chunk(world, x as i32, z as i32) {
                    queued.push(pos);
                    proof {
                        assert(!listed.contains(pos)) by {
                            if listed.contains(pos) {
                                assert(listed.to_set().contains(pos));
                            }
                        }
                        assert(queued@ =~= listed.push(pos));
                        assert forall|p: ChunkPos| queued@.contains(p) <==> (listed.contains(p) || p
                            == pos) by {
                            if listed.contains(p) {
                                let j = choose|j: int| 0 <= j < listed.len() && listed[j] == p;
                                assert(queued@[j] == p);
                            }
                            if p == pos {
                                assert(queued@[listed.len() as int] == p);
                            }
                        }
                        assert(queued@.to_set() =~= listed.to_set().insert(pos));
                        assert(self.pending() =~= before.union(queued@.to_set()));
                        assert(!before.contains(pos));
                        assert(missing.contains(pos));
                    }
                } else {
                    proof {
                        assert(!missing.contains(pos)) by {
                            if before.union(listed.to_set()).contains(pos) && !before.contains(pos) {
                                assert(listed.contains(pos));
                            }
                        }
                    }
                }
                assert forall|p: ChunkPos| queued@.contains(p) <==> missing.contains(p)
                    && spec_walked(p, x as int, z + 1) by {
                    assert(listed.contains(p) <==> missing.contains(p) && spec_walked(
                        p,
                        x as int,
                        z as int,
                    ));
                    assert(spec_walked(p, x as int, z + 1) <==> spec_walked(p, x as int, z as int)
                        || p == pos);
                    assert(queued@.contains(p) <==> listed.contains(p) || (missing.contains(pos)
                        && p == pos));
                }
                z = z + 1;
            }
            x = x + 1;
        }
        proof {
            assert(queued@.to_set() =~= spec_missing(world@, before, center_x, center_z, r));
        }
        queued
    }

    /// Takes note that the chunk at `pos` was generated: it is pending no
    /// more.
    pub fn complete(&mut self, pos: ChunkPos)
        ensures
            final(self).pending() == old(self).pending().remove(pos),
    {
        self.pending.remove(pos);
    }
}

/// The chunks of a region that a caller still waits for.
pub struct RegionAwait {
    remaining: Vec<ChunkPos>,
}

impl View for RegionAwait {
    type V = Set<ChunkPos>;

    closed spec fn view(&self) -> Set<ChunkPos> {
        self.remaining@.to_set()
    }
}

impl RegionAwait {
    /// Starts to wait for the region around (`center_x`, `center_z`): for
    /// each of its chunks that the world does not hold.
    pub fn new(world: &World, center_x: i32, center_z: i32, r: i32) -> (wait: RegionAwait)
        ensures
            wait@ == spec_missing(world@, Set::empty(), center_x, center_z, r),
    {
        let (x_low, x_high) = region_bounds(center_x, r);
        let (z_low, z_high) = region_bounds(center_z, r);
        let mut remaining: Vec<ChunkPos> = Vec::new();
        let ghost none = Set::<ChunkPos>::empty();
        let mut x: i64 = x_low;
        while x <= x_high
            invariant
                x_low <= x,
                i32::MIN <= x_low,
                x_high <= i32::MAX,
                i32::MIN <= z_low,
                z_high <= i32::MAX,
                x_low == if center_x - r < i32::MIN {
                    i32::MIN as int
                } else {
                    center_x - r
                },
                x_high == if center_x + r > i32::MAX {
                    i32::MAX as int
                } else {
                    center_x + r
                },
                z_low == if center_z - r < i32::MIN {
                    i32::MIN as int
                } else {
                    center_z - r
                },
                z_high == if center_z + r > i32::MAX {
                    i32::MAX as int
                } else {
                    center_z + r
                },
                none == Set::<ChunkPos>::empty(),
                forall|p: ChunkPos|
                    remaining@.contains(p) <==> spec_missing(world@, none, center_x, center_z, r).contains(
                        p,
                    ) && p.x < x,
            decreases x_high - x + 1,
        {
            let mut z: i64 = z_low;
            while z <= z_high
                invariant
                    x_low <= x <= x_high,
                    z_low <= z,
                    i32::MIN <= x_low,
                    x_high <= i32::MAX,
                    i32::MIN <= z_low,
                    z_high <= i32::MAX,
                    x_low == if center_x - r < i32::MIN {
                        i32::MIN as int
                    } else {
                        center_x - r
                    },
                    x_high == if center_x + r > i32::MAX {
                        i32::MAX as int
                    } else {
                        center_x + r
                    },
                    z_low == if center_z - r < i32::MIN {
                        i32::MIN as int
                    } else {
                        center_z - r
                    },
                    z_high == if center_z + r > i32::MAX {
                        i32::MAX as int
                    } else {
                        center_z + r
                    },
                    none == Set::<ChunkPos>::empty(),
                    forall|p: ChunkPos|
                        remaining@.contains(p) <==> spec_missing(
                            world@,
                            none,
                            center_x,
                            center_z,
                            r,
                        ).contains(p) && spec_walked(p, x as int, z as int),
                decreases z_high - z + 1,
            {
                let ghost listed = remaining@;
                let ghost missing = spec_missing(world@, none, center_x, center_z, r);
                let pos = ChunkPos::new(x as i32, z as i32);
                assert(spec_in_region(pos, center_x, center_z, r));
                assert(forall|p: ChunkPos|
                    spec_walked(p, x as int, z + 1) <==> spec_walked(p, x as int, z as int) || p
                        == pos);
                if !world.has_chunk(pos) {
                    remaining.push(pos);
                    proof {
                        assert(remaining@ =~= listed.push(pos));
                        assert forall|p: ChunkPos| remaining@.contains(p) <==> (listed.contains(p)
                            || p == pos) by {
                            if listed.contains(p) {
                                let j = choose|j: int| 0 <= j < listed.len() && listed[j] == p;
                                assert(remaining@[j] == p);
                            }
                            if p == pos {
                                assert(remaining@[listed.len() as int] == p);
                            }
                        }
                        assert(missing.contains(pos));
                    }
                }
                assert forall|p: ChunkPos| remaining@.contains(p) <==> missing.contains(p)
                    && spec_walked(p, x as int, z + 1) by {
                    assert(listed.contains(p) <==> missing.contains(p) && spec_walked(
                        p,
                        x as int,
                        z as int,
                    ));
                    assert(spec_walked(p, x as int, z + 1) <==> spec_walked(p, x as int, z as int)
                        || p == pos);
                    assert(remaining@.contains(p) <==> listed.contains(p) || (missing.contains(pos)
                        && p == pos));
                }
                z = z + 1;
            }
            x = x + 1;
        }
        let wait = RegionAwait { remaining };
        proof {
            assert(wait@ =~= spec_missing(world@, none, center_x, center_z, r));
        }
        wait
    }

    /// Takes note that the chunk at `pos` was generated.
    pub fn complete(&mut self, pos: ChunkPos)
        ensures
            final(self)@ == old(self)@.remove(pos),
    {
        let mut kept: Vec<ChunkPos> = Vec::new();
        let mut i: usize = 0;
        while i < self.remaining.len()
            invariant
                i <= self.remaining@.len(),
                self.remaining@ == old(self).remaining@,
                forall|p: ChunkPos|
                    kept@.contains(p) <==> p != pos && exists|j: int|
                        0 <= j < i && self.remaining@[j] == p,
            decreases self.remaining@.len() - i,
        {
            let ghost listed = kept@;
            let item = self.remaining[i];
            assert((item.x != pos.x || item.z != pos.z) == (item != pos));
            if item.x != pos.x || item.z != pos.z {
                kept.push(item);
                proof {
                    assert(kept@ =~= listed.push(item));
                    assert forall|p: ChunkPos| kept@.contains(p) <==> (listed.contains(p) || p
                        == item) by {
                        if listed.contains(p) {
                            let j = choose|j: int| 0 <= j < listed.len() && listed[j] == p;
                            assert(kept@[j] == p);
                        }
                        if p == item {
                            assert(kept@[listed.len() as int] == p);
                        }
                    }
                }
            }
            assert forall|p: ChunkPos| kept@.contains(p) <==> p != pos && exists|j: int|
                0 <= j < i + 1 && self.remaining@[j] == p by {
                if kept@.contains(p) {
                    if listed.contains(p) {
                        let j = choose|j: int| 0 <= j < i && self.remaining@[j] == p;
                        assert(0 <= j < i + 1 && self.remaining@[j] == p);
                    } else {
                        assert(self.remaining@[i as int] == p);
                    }
                }
                if p != pos && exists|j: int| 0 <= j < i + 1 && self.remaining@[j] == p {
                    let j = choose|j: int| 0 <= j < i + 1 && self.remaining@[j] == p;
                    if j < i {
                        assert(listed.contains(p));
                    }
                }
            }
            i = i + 1;
        }
        proof {
            assert forall|p: ChunkPos| kept@.to_set().contains(p) == old(self)@.remove(pos).contains(
                p,
            ) by {
                if old(self)@.remove(pos).contains(p) {
                    assert(old(self).remaining@.contains(p));
                }
            }
            assert(kept@.to_set() =~= old(self)@.remove(pos));
        }
        self.remaining = kept;
    }

    /// Whether nothing is waited for any more.
    pub fn is_done(&self) -> (done: bool)
        ensures
            done == (self@ == Set::<ChunkPos>::empty()),
    {
        proof {
            if self.remaining@.len() == 0 {
                assert(self@ =~= Set::<ChunkPos>::empty());
            } else {
                assert(self@.contains(self.remaining@[0]));
            }
        }
        self.remaining.len() == 0
    }
}

} // verus!
