//! View-distance chunk streaming: which chunks a client is shipped, and
//! which it is told to drop.

use crate::client::actions::{
    emit, no_actions, spec_actions, spec_codec_after, lemma_codec_after_concat, Action,
    ActionView,
};
use crate::client::ClientHandler;
use crate::mc::proto::{Packet, PacketView, PlayState};
use crate::server::ServerHandler;
use crate::world::sched::{spec_in_region, spec_missing, spec_walked};
use crate::world::store::World;
use crate::world::{Chunk, ChunkPos};
use vstd::prelude::*;

verus! {

/// No bulk packet carries more chunks than this.
pub const CHUNKS_PER_PACKET: usize = 10;

/// The bulk packets that carry `sent`, ten chunks to a packet and the rest
/// in the last.
pub open spec fn spec_bulk_actions(sent: Seq<Chunk>) -> Seq<ActionView>
    decreases sent.len(),
{
    if sent.len() == 0 {
        Seq::empty()
    } else {
        let n = if sent.len() < CHUNKS_PER_PACKET {
            sent.len() as int
        } else {
            CHUNKS_PER_PACKET as int
        };
        seq![
            ActionView::Send(PacketView::S26MapChunkBulk { skylight: true, chunks: sent.take(n) }),
        ] + spec_bulk_actions(sent.skip(n))
    }
}

/// The packets that tell a client to drop the chunks at `gone`.
pub open spec fn spec_unload_actions(gone: Seq<ChunkPos>) -> Seq<ActionView> {
    gone.map_values(|p: ChunkPos| ActionView::Send(PacketView::S21ChunkData { x: p.x, z: p.z }))
}

/// Whether `p` is a chunk of the region that the world holds and the client
/// does not know.
pub open spec fn spec_to_send(
    world: Map<ChunkPos, Chunk>,
    known: Set<ChunkPos>,
    cx: i32,
    cz: i32,
    r: i32,
    p: ChunkPos,
) -> bool {
    spec_in_region(p, cx, cz, r) && world.contains_key(p) && !known.contains(p)
}

/// Whether `sent` is what a client is shipped for a region: every chunk of
/// the region that the world holds and the client does not know, each once,
/// as the world holds it.
pub open spec fn spec_chunk_list(
    sent: Seq<Chunk>,
    world: Map<ChunkPos, Chunk>,
    known: Set<ChunkPos>,
    cx: i32,
    cz: i32,
    r: i32,
) -> bool {
    &&& forall|i: int|
        0 <= i < sent.len() ==> spec_to_send(world, known, cx, cz, r, (#[trigger] sent[i]).pos())
            && world[sent[i].pos()] == sent[i]
    &&& forall|i: int, j: int|
        0 <= i < j < sent.len() ==> (#[trigger] sent[i]).pos() != (#[trigger] sent[j]).pos()
    &&& forall|p: ChunkPos| #[trigger]
        spec_to_send(world, known, cx, cz, r, p) ==> exists|i: int|
            0 <= i < sent.len() && (#[trigger] sent[i]).pos() == p
}

/// The set of chunks that a client knows once it was shipped a region.
pub open spec fn spec_known_after_send(
    world: Map<ChunkPos, Chunk>,
    known: Set<ChunkPos>,
    cx: i32,
    cz: i32,
    r: i32,
) -> Set<ChunkPos> {
    Set::new(|p: ChunkPos| known.contains(p) || spec_to_send(world, known, cx, cz, r, p))
}

/// The first and last value of a coordinate in a region, cut to the range
/// of chunk coordinates.
fn window_bounds(center: i32, r: i32) -> (bounds: (i64, i64))
    ensures
        bounds.0 == if center - r < i32::MIN {
            i32::MIN as int
        } else {
            center - r
        },
        bounds.1 == if center + r > i32::MAX {
            i32::MAX as int
        } else {
            center + r
        },
{
    let low: i64 = center as i64 - r as i64;
    let high: i64 = center as i64 + r as i64;
    (
        if low < i32::MIN as i64 {
            i32::MIN as i64
        } else {
            low
        },
        if high > i32::MAX as i64 {
            i32::MAX as i64
        } else {
            high
        },
    )
}

/// Whether `p` lies in the region around (`cx`, `cz`).
pub fn in_region(p: ChunkPos, cx: i32, cz: i32, r: i32) -> (inside: bool)
    ensures
        inside == spec_in_region(p, cx, cz, r),
{
    let (x_low, x_high) = window_bounds(cx, r);
    let (z_low, z_high) = window_bounds(cz, r);
    x_low <= p.x as i64 && p.x as i64 <= x_high && z_low <= p.z as i64 && p.z as i64 <= z_high
}

/// The bulk packets that carry `sent`.
pub fn bulk_packets(sent: &Vec<Chunk>) -> (actions: Vec<Action>)
    ensures
        spec_actions(actions@) == spec_bulk_actions(sent@),
{
    let mut actions = no_actions();
    let mut i: usize = 0;
    assert(sent@.skip(0) =~= sent@);
    while i < sent.len()
        invariant
            i <= sent@.len(),
            spec_actions(actions@) + spec_bulk_actions(sent@.skip(i as int)) == spec_bulk_actions(
                sent@,
            ),
        decreases sent@.len() - i,
    {
        let left: usize = sent.len() - i;
        let n: usize = if left < CHUNKS_PER_PACKET {
            left
        } else {
            CHUNKS_PER_PACKET
        };
        let mut group: Vec<Chunk> = Vec::new();
        let mut k: usize = 0;
        let total: usize = sent.len();
        while k < n
            invariant
                k <= n,
                total == sent@.len(),
                i + n <= sent@.len(),
                group@ == sent@.subrange(i as int, i + k),
            decreases n - k,
        {
            group.push(sent[i + k]);
            assert(group@ =~= sent@.subrange(i as int, i + k + 1));
            k = k + 1;
        }
        let ghost before = spec_actions(actions@);
        let ghost rest = sent@.skip(i as int);
        proof {
            assert(group@ =~= rest.take(n as int));
            assert(rest.skip(n as int) =~= sent@.skip(i + n));
        }
        emit(&mut actions, Action::Send(Packet::S26MapChunkBulk { skylight: true, chunks: group }));
        proof {
            let head = seq![
                ActionView::Send(
                    PacketView::S26MapChunkBulk { skylight: true, chunks: rest.take(n as int) },
                ),
            ];
            assert(spec_bulk_actions(rest) == head + spec_bulk_actions(rest.skip(n as int)));
            assert(spec_actions(actions@) =~= before + head);
            assert(before + head + spec_bulk_actions(rest.skip(n as int)) =~= before + (head
                + spec_bulk_actions(rest.skip(n as int))));
        }
        i = i + n;
    }
    proof {
        assert(sent@.skip(i as int).len() == 0);
        assert(spec_actions(actions@) + Seq::<ActionView>::empty() =~= spec_actions(actions@));
    }
    actions
}

impl ClientHandler {
    /// The positions of the chunks that the client is to be shipped for the
    /// region around (`cx`, `cz`), each once. They are known from now on.
    fn mark_region(&mut self, world: &World, cx: i32, cz: i32, r: i32) -> (marked: Vec<ChunkPos>)
        ensures
            marked@.no_duplicates(),
            forall|p: ChunkPos|
                marked@.contains(p) <==> spec_to_send(world@, old(self).known(), cx, cz, r, p),
            final(self).known() == spec_known_after_send(world@, old(self).known(), cx, cz, r),
            final(self).player == old(self).player,
            final(self).current_chunk_pos == old(self).current_chunk_pos,
            final(self).awaiting == old(self).awaiting,
    {
        let (x_low, x_high) = window_bounds(cx, r);
        let (z_low, z_high) = window_bounds(cz, r);
        let mut marked: Vec<ChunkPos> = Vec::new();
        let ghost before = self.known();
        let mut x: i64 = x_low;
        assert(self.known() =~= before.union(marked@.to_set()));
        while x <= x_high
            invariant
                x_low <= x,
                i32::MIN <= x_low,
                x_high <= i32::MAX,
                i32::MIN <= z_low,
                z_high <= i32::MAX,
                x_low == if cx - r < i32::MIN {
                    i32::MIN as int
                } else {
                    cx - r
                },
                x_high == if cx + r > i32::MAX {
                    i32::MAX as int
                } else {
                    cx + r
                },
                z_low == if cz - r < i32::MIN {
                    i32::MIN as int
                } else {
                    cz - r
                },
                z_high == if cz + r > i32::MAX {
                    i32::MAX as int
                } else {
                    cz + r
                },
                marked@.no_duplicates(),
                self.known() == before.union(marked@.to_set()),
                self.player == old(self).player,
                self.current_chunk_pos == old(self).current_chunk_pos,
                self.awaiting == old(self).awaiting,
                forall|p: ChunkPos|
                    marked@.contains(p) <==> spec_to_send(world@, before, cx, cz, r, p) && p.x < x,
            decreases x_high - x + 1,
        {
            let mut z: i64 = z_low;
            while z <= z_high
                invariant
                    x_low <= x <= x_high,
                    z_low <= z,
                    i32::MIN <= x_low,
                    x_high <= i32::MAX,
                    i32::MIN <= z_low,
                    z_high <= i32::MAX,
                    x_low == if cx - r < i32::MIN {
                        i32::MIN as int
                    } else {
                        cx - r
                    },
                    x_high == if cx + r > i32::MAX {
                        i32::MAX as int
                    } else {
                        cx + r
                    },
                    z_low == if cz - r < i32::MIN {
                        i32::MIN as int
                    } else {
                        cz - r
                    },
                    z_high == if cz + r > i32::MAX {
                        i32::MAX as int
                    } else {
                        cz + r
                    },
                    marked@.no_duplicates(),
                    self.known() == before.union(marked@.to_set()),
                    self.player == old(self).player,
                    self.current_chunk_pos == old(self).current_chunk_pos,
                    self.awaiting == old(self).awaiting,
                    forall|p: ChunkPos|
                        marked@.contains(p) <==> spec_to_send(world@, before, cx, cz, r, p)
                            && spec_walked(p, x as int, z as int),
                decreases z_high - z + 1,
            {
                let ghost listed = marked@;
                let pos = ChunkPos::new(x as i32, z as i32);
                assert(spec_in_region(pos, cx, cz, r));
                if world.has_chunk(pos) && !self.known_chunks.contains(pos) {
                    self.known_chunks.insert(pos);
                    marked.push(pos);
                    proof {
                        assert(!listed.contains(pos)) by {
                            if listed.contains(pos) {
                                assert(listed.to_set().contains(pos));
                            }
                        }
                        assert(marked@ =~= listed.push(pos));
                        assert forall|p: ChunkPos| marked@.contains(p) <==> (listed.contains(p) || p
                            == pos) by {
                            if listed.contains(p) {
                                let j = choose|j: int| 0 <= j < listed.len() && listed[j] == p;
                                assert(marked@[j] == p);
                            }
                            if p == pos {
                                assert(marked@[listed.len() as int] == p);
                            }
                        }
                        assert(marked@.to_set() =~= listed.to_set().insert(pos));
                        assert(self.known() =~= before.union(marked@.to_set()));
                        assert(!before.contains(pos));
                        assert(spec_to_send(world@, before, cx, cz, r, pos));
                    }
                } else {
                    proof {
                        assert(!spec_to_send(world@, before, cx, cz, r, pos)) by {
                            if before.union(listed.to_set()).contains(pos) && !before.contains(pos) {
                                assert(listed.contains(pos));
                            }
                        }
                    }
                }
                assert forall|p: ChunkPos|
                    marked@.contains(p) <==> spec_to_send(world@, before, cx, cz, r, p)
                        && spec_walked(p, x as int, z + 1) by {
                    assert(listed.contains(p) <==> spec_to_send(world@, before, cx, cz, r, p)
                        && spec_walked(p, x as int, z as int));
                    assert(spec_walked(p, x as int, z + 1)
                        <==> spec_walked(p, x as int, z as int) || p == pos);
                    assert(marked@.contains(p) <==> listed.contains(p) || (spec_to_send(
                        world@,
                        before,
                        cx,
                        cz,
                        r,
                        pos,
                    ) && p == pos));
                }
                z = z + 1;
            }
            x = x + 1;
        }
        proof {
            assert forall|p: ChunkPos| self.known().contains(p) == spec_known_after_send(
                world@,
                before,
                cx,
                cz,
                r,
            ).contains(p) by {
                if marked@.to_set().contains(p) {
                    assert(marked@.contains(p));
                }
                if spec_to_send(world@, before, cx, cz, r, p) {
                    assert(marked@.contains(p));
                    assert(marked@.to_set().contains(p));
                }
            }
            assert(self.known() =~= spec_known_after_send(world@, before, cx, cz, r));
        }
        marked
    }

    /// Copies of the chunks that the client is to be shipped for the region
    /// around (`center_x`, `center_z`). They are known from now on.
    pub fn send_chunks(&mut self, world: &World, center_x: i32, center_z: i32, r: i32) -> (sent:
        Vec<Chunk>)
        requires
            world.wf(),
        ensures
            spec_chunk_list(sent@, world@, old(self).known(), center_x, center_z, r),
            final(self).known() == spec_known_after_send(
                world@,
                old(self).known(),
                center_x,
                center_z,
                r,
            ),
            final(self).player == old(self).player,
            final(self).current_chunk_pos == old(self).current_chunk_pos,
            final(self).awaiting == old(self).awaiting,
    {
        let marked = self.mark_region(world, center_x, center_z, r);
        let ghost known = old(self).known();
        let mut sent: Vec<Chunk> = Vec::new();
        let mut i: usize = 0;
        while i < marked.len()
            invariant
                i <= marked@.len(),
                world.wf(),
                sent@.len() == i,
                forall|p: ChunkPos|
                    marked@.contains(p) <==> spec_to_send(world@, known, center_x, center_z, r, p),
                forall|j: int|
                    0 <= j < i ==> (#[trigger] sent@[j]).pos() == marked@[j] && sent@[j]
                        == world@[marked@[j]],
            decreases marked@.len() - i,
        {
            let pos = marked[i];
            assert(marked@.contains(pos));
            sent.push(world.get_chunk(pos).unwrap());
            i = i + 1;
        }
        proof {
            assert forall|j: int| 0 <= j < sent@.len() implies spec_to_send(
                world@,
                known,
                center_x,
                center_z,
                r,
                (#[trigger] sent@[j]).pos(),
            ) && world@[sent@[j].pos()] == sent@[j] by {
                assert(marked@.contains(marked@[j]));
            }
            assert forall|p: ChunkPos| #[trigger]
                spec_to_send(world@, known, center_x, center_z, r, p) implies exists|j: int|
                0 <= j < sent@.len() && (#[trigger] sent@[j]).pos() == p by {
                assert(marked@.contains(p));
                let j = choose|j: int| 0 <= j < marked@.len() && marked@[j] == p;
                assert(sent@[j].pos() == p);
            }
        }
        sent
    }
}

/// What shipping a region comes to, once it is generated. The chunks of the
/// region around the player that the world holds and the client does not
/// know go out in bulk packets, and are known from then on. Then the client
/// is told to drop every chunk that it knows outside the region, in no
/// particular order, and knows them no more.
pub open spec fn spec_shipped(
    pre: ClientHandler,
    server: ServerHandler,
    post: ClientHandler,
    actions: Seq<ActionView>,
) -> bool {
    let cx = pre.current_chunk_pos.x;
    let cz = pre.current_chunk_pos.z;
    let r = server.config.view_dist;
    &&& post.player == pre.player
    &&& post.current_chunk_pos == pre.current_chunk_pos
    &&& !post.awaiting
    &&& post.known() == Set::new(
        |p: ChunkPos|
            spec_in_region(p, cx, cz, r) && (pre.known().contains(p) || server.world@.contains_key(
                p,
            )),
    )
    &&& exists|sent: Seq<Chunk>, gone: Seq<ChunkPos>|
        {
            &&& spec_chunk_list(sent, server.world@, pre.known(), cx, cz, r)
            &&& gone.no_duplicates()
            &&& forall|p: ChunkPos|
                gone.contains(p) <==> pre.known().contains(p) && !spec_in_region(p, cx, cz, r)
            &&& actions == spec_bulk_actions(sent) + spec_unload_actions(gone)
        }
}

/// What following a player into the chunk `center` comes to. In the chunk
/// that the player was in already, nothing happens. In a new chunk, the
/// chunks of the region around it that are neither pending nor in the world
/// become pending, and the caller is told to wait for the region.
pub open spec fn spec_moved(
    pre: ClientHandler,
    server_pre: ServerHandler,
    center: ChunkPos,
    post: ClientHandler,
    server_post: ServerHandler,
    actions: Seq<ActionView>,
) -> bool {
    &&& post.player == pre.player
    &&& post.known() == pre.known()
    &&& post.current_chunk_pos == center
    &&& server_post.config == server_pre.config
    &&& server_post.world == server_pre.world
    &&& server_post.id_counter == server_pre.id_counter
    &&& server_post.player_counter == server_pre.player_counter
    &&& if center == pre.current_chunk_pos {
        &&& actions == Seq::<ActionView>::empty()
        &&& post.awaiting == pre.awaiting
        &&& server_post.gen.pending() == server_pre.gen.pending()
    } else {
        &&& actions == seq![ActionView::AwaitRegion { center, r: server_pre.config.view_dist }]
        &&& post.awaiting
        &&& server_post.gen.pending() == server_pre.gen.pending().union(
            spec_missing(
                server_pre.world@,
                server_pre.gen.pending(),
                center.x,
                center.z,
                server_pre.config.view_dist,
            ),
        )
    }
}

impl ClientHandler {
    /// Follows the player into the chunk `center`: see `spec_moved`.
    pub fn update_chunks(&mut self, server: &mut ServerHandler, center: ChunkPos) -> (actions: Vec<
        Action,
    >)
        ensures
            spec_moved(
                *old(self),
                *old(server),
                center,
                *final(self),
                *final(server),
                spec_actions(actions@),
            ),
    {
        let mut actions = no_actions();
        if self.current_chunk_pos.x != center.x || self.current_chunk_pos.z != center.z {
            self.current_chunk_pos = center;
            self.awaiting = true;
            let r = server.config.view_dist;
            let _ = server.gen.request_region(&server.world, center.x, center.z, r);
            emit(&mut actions, Action::AwaitRegion { center, r });
            assert(spec_actions(actions@) =~= seq![ActionView::AwaitRegion { center, r }]);
        }
        actions
    }

    /// Ships the region around the player once it is generated: see
    /// `spec_shipped`.
    pub fn region_ready(&mut self, server: &ServerHandler) -> (actions: Vec<Action>)
        requires
            server.wf(),
        ensures
            spec_shipped(*old(self), *server, *final(self), spec_actions(actions@)),
            old(self).player.wf() ==> final(self).wf(server.config.view_dist),
    {
        let center = self.current_chunk_pos;
        let r = server.config.view_dist;
        let ghost known_before = self.known();
        let sent = self.send_chunks(&server.world, center.x, center.z, r);
        let mut actions = bulk_packets(&sent);
        let ghost known_sent = self.known();
        let members = self.known_chunks.positions();
        let mut gone: Vec<ChunkPos> = Vec::new();
        let mut i: usize = 0;
        assert(spec_unload_actions(gone@) =~= Seq::<ActionView>::empty());
        assert(spec_bulk_actions(sent@) + spec_unload_actions(gone@) =~= spec_bulk_actions(sent@));
        while i < members.len()
            invariant
                i <= members@.len(),
                members@.no_duplicates(),
                members@.to_set() == known_sent,
                self.player == old(self).player,
                self.current_chunk_pos == old(self).current_chunk_pos,
                center == old(self).current_chunk_pos,
                spec_actions(actions@) == spec_bulk_actions(sent@) + spec_unload_actions(gone@),
                gone@.no_duplicates(),
                forall|p: ChunkPos|
                    gone@.contains(p) <==> !spec_in_region(p, center.x, center.z, r) && exists|
                        j: int,
                    |
                        0 <= j < i && members@[j] == p,
                forall|p: ChunkPos|
                    self.known().contains(p) <==> known_sent.contains(p) && !gone@.contains(p),
            decreases members@.len() - i,
        {
            let member = members[i];
            let ghost listed = gone@;
            let ghost acts = spec_actions(actions@);
            let ghost known_now = self.known();
            assert(members@.to_set().contains(member));
            if !in_region(member, center.x, center.z, r) {
                emit(&mut actions, Action::Send(Packet::S21ChunkData { x: member.x, z: member.z }));
                self.known_chunks.remove(member);
                gone.push(member);
                proof {
                    assert(!listed.contains(member)) by {
                        if listed.contains(member) {
                            let j = choose|j: int| 0 <= j < i && members@[j] == member;
                            assert(members@[j] == members@[i as int]);
                        }
                    }
                    assert(gone@ =~= listed.push(member));
                    assert forall|p: ChunkPos| gone@.contains(p) <==> (listed.contains(p) || p
                        == member) by {
                        if listed.contains(p) {
                            let j = choose|j: int| 0 <= j < listed.len() && listed[j] == p;
                            assert(gone@[j] == p);
                        }
                        if p == member {
                            assert(gone@[listed.len() as int] == p);
                        }
                    }
                    assert(spec_unload_actions(gone@) =~= spec_unload_actions(listed).push(
                        ActionView::Send(PacketView::S21ChunkData { x: member.x, z: member.z }),
                    ));
                    assert(spec_actions(actions@) =~= spec_bulk_actions(sent@)
                        + spec_unload_actions(gone@));
                }
            }
            assert forall|p: ChunkPos|
                self.known().contains(p) <==> known_sent.contains(p) && !gone@.contains(p) by {
                assert(known_now.contains(p) <==> known_sent.contains(p) && !listed.contains(p));
                if spec_in_region(member, center.x, center.z, r) {
                    assert(gone@ == listed);
                } else {
                    assert(gone@.contains(p) <==> (listed.contains(p) || p == member));
                    assert(self.known().contains(p) <==> known_now.contains(p) && p != member);
                }
            }
            assert forall|p: ChunkPos|
                gone@.contains(p) <==> !spec_in_region(p, center.x, center.z, r) && exists|j: int|
                    0 <= j < i + 1 && members@[j] == p by {
                if gone@.contains(p) {
                    if listed.contains(p) {
                        let j = choose|j: int| 0 <= j < i && members@[j] == p;
                        assert(0 <= j < i + 1 && members@[j] == p);
                    } else {
                        assert(members@[i as int] == p);
                    }
                }
                if !spec_in_region(p, center.x, center.z, r) && exists|j: int|
                    0 <= j < i + 1 && members@[j] == p {
                    let j = choose|j: int| 0 <= j < i + 1 && members@[j] == p;
                    if j < i {
                        assert(listed.contains(p));
                    }
                }
            }
            i = i + 1;
        }
        self.awaiting = false;
        proof {
            assert forall|p: ChunkPos|
                gone@.contains(p) <==> known_before.contains(p) && !spec_in_region(
                    p,
                    center.x,
                    center.z,
                    r,
                ) by {
                if gone@.contains(p) {
                    let j = choose|j: int| 0 <= j < members@.len() && members@[j] == p;
                    assert(members@.to_set().contains(p));
                }
                if known_before.contains(p) && !spec_in_region(p, center.x, center.z, r) {
                    assert(known_sent.contains(p));
                    assert(members@.contains(p));
                }
            }
            let target = Set::new(
                |p: ChunkPos|
                    spec_in_region(p, center.x, center.z, r) && (known_before.contains(p)
                        || server.world@.contains_key(p)),
            );
            assert forall|p: ChunkPos| self.known().contains(p) == target.contains(p) by {
                assert(self.known().contains(p) <==> known_sent.contains(p) && !gone@.contains(p));
                assert(known_sent.contains(p) <==> known_before.contains(p) || spec_to_send(
                    server.world@,
                    known_before,
                    center.x,
                    center.z,
                    r,
                    p,
                ));
                if known_sent.contains(p) && !spec_in_region(p, center.x, center.z, r) {
                    assert(members@.to_set().contains(p));
                    let j = choose|j: int| 0 <= j < members@.len() && members@[j] == p;
                    assert(gone@.contains(p));
                }
            }
            assert(self.known() =~= target);
        }
        proof {
            assert(spec_chunk_list(sent@, server.world@, known_before, center.x, center.z, r));
            assert(spec_actions(actions@) == spec_bulk_actions(sent@) + spec_unload_actions(
                gone@,
            ));
        }
        actions
    }
}

/// Bulk packets ask nothing of the codec.
pub proof fn lemma_bulk_keeps_codec(sent: Seq<Chunk>, codec: (PlayState, usize))
    ensures
        spec_codec_after(spec_bulk_actions(sent), codec) == codec,
    decreases sent.len(),
{
    if sent.len() > 0 {
        let n = if sent.len() < CHUNKS_PER_PACKET {
            sent.len() as int
        } else {
            CHUNKS_PER_PACKET as int
        };
        let head = seq![
            ActionView::Send(PacketView::S26MapChunkBulk { skylight: true, chunks: sent.take(n) }),
        ];
        lemma_bulk_keeps_codec(sent.skip(n), codec);
        lemma_codec_after_concat(head, spec_bulk_actions(sent.skip(n)), codec);
        assert(head.drop_last() =~= Seq::<ActionView>::empty());
        assert(spec_codec_after(head, codec) == codec) by {
            reveal_with_fuel(spec_codec_after, 2);
        }
    }
}

/// The place of a chunk in a region, counted row by row.
pub open spec fn spec_region_index(p: ChunkPos, cx: i32, cz: i32, r: i32) -> int {
    (p.x - (cx - r)) * (2 * r + 1) + (p.z - (cz - r))
}

/// A set of chunks that all lie in one region has no more members than the
/// region has chunks.
pub proof fn lemma_region_bound(chunks: Set<ChunkPos>, cx: i32, cz: i32, r: i32)
    requires
        chunks.finite(),
        forall|p: ChunkPos| chunks.contains(p) ==> spec_in_region(p, cx, cz, r),
    ensures
        chunks.len() <= (2 * r + 1) * (2 * r + 1),
{
    if r < 0 {
        assert(chunks =~= Set::<ChunkPos>::empty());
        assert(0 <= (2 * r + 1) * (2 * r + 1)) by (nonlinear_arith);
        return ;
    }
    let n = 2 * r + 1;
    let f = |p: ChunkPos| spec_region_index(p, cx, cz, r);
    let image = chunks.map(f);
    let range = vstd::set_lib::set_int_range(0, n * n);
    assert forall|p: ChunkPos, q: ChunkPos|
        chunks.contains(p) && chunks.contains(q) && #[trigger] f(p) == #[trigger] f(q) implies p
        == q by {
        let a = p.x - (cx - r);
        let b = p.z - (cz - r);
        let c = q.x - (cx - r);
        let d = q.z - (cz - r);
        assert(spec_in_region(p, cx, cz, r) && spec_in_region(q, cx, cz, r));
        vstd::arithmetic::div_mod::lemma_fundamental_div_mod_converse(a * n + b, n, a, b);
        vstd::arithmetic::div_mod::lemma_fundamental_div_mod_converse(c * n + d, n, c, d);
    }
    assert(vstd::relations::injective_on(f, chunks));
    vstd::set_lib::lemma_map_size(chunks, image, f);
    vstd::set_lib::lemma_int_range(0, n * n);
    assert forall|i: int| image.contains(i) implies range.contains(i) by {
        let p = choose|p: ChunkPos| chunks.contains(p) && f(p) == i;
        let a = p.x - (cx - r);
        let b = p.z - (cz - r);
        assert(spec_in_region(p, cx, cz, r));
        assert(0 <= a * n + b < n * n) by (nonlinear_arith)
            requires
                0 <= a < n,
                0 <= b < n,
        ;
    }
    assert(0 <= n * n) by (nonlinear_arith)
        requires
            n >= 1,
    ;
    vstd::set_lib::lemma_len_subset(image, range);
}

/// A client never knows more chunks than its view holds, but for those that
/// it was not told to drop yet: the chunks that it knows are at most the
/// chunks of the region around the player and the known chunks outside it.
pub proof fn lemma_known_chunks_bound(known: Set<ChunkPos>, cx: i32, cz: i32, view_dist: i32)
    requires
        known.finite(),
    ensures
        known.filter(|p: ChunkPos| !spec_in_region(p, cx, cz, view_dist)).finite(),
        known.len() <= (2 * view_dist + 1) * (2 * view_dist + 1) + known.filter(
            |p: ChunkPos| !spec_in_region(p, cx, cz, view_dist),
        ).len(),
{
    let inside = known.filter(|p: ChunkPos| spec_in_region(p, cx, cz, view_dist));
    let outside = known.filter(|p: ChunkPos| !spec_in_region(p, cx, cz, view_dist));
    known.lemma_len_filter(|p: ChunkPos| spec_in_region(p, cx, cz, view_dist));
    known.lemma_len_filter(|p: ChunkPos| !spec_in_region(p, cx, cz, view_dist));
    lemma_region_bound(inside, cx, cz, view_dist);
    vstd::set_lib::lemma_len_union(inside, outside);
    assert(inside.union(outside) =~= known);
}

} // verus!
