//! Digging and placing blocks.

use crate::client::actions::{emit, no_actions, spec_actions, Action, ActionView};
use crate::client::{spec_session_kept, ClientHandler};
use crate::mc::proto::{
    DiggingStatus, EntityMetaData, EntityMetaDataView, EntityMetaEntry, EntityMetaEntryView,
    Packet, PacketView,
};
use crate::model::{GameMode, ItemStack};
use crate::server::ServerHandler;
use crate::world::store::{spec_world_block, spec_world_set_block};
use crate::world::{
    block_id, block_meta, block_state, spec_block_id, spec_block_meta, spec_block_state,
    BlockFace, BlockPos,
};
use vstd::prelude::*;

verus! {

/// The id of tall grass, which a placed block replaces.
pub const TALL_GRASS: u16 = 31;

/// The middle of a block along one axis, in thirty-seconds of a block, held
/// to the 32-bit range.
pub open spec fn spec_block_centre(v: i32) -> i32 {
    if v * 32 + 16 > i32::MAX {
        i32::MAX
    } else if v * 32 + 16 < i32::MIN {
        i32::MIN
    } else {
        (v * 32 + 16) as i32
    }
}

/// The middle of a block along one axis, in thirty-seconds of a block.
pub fn block_centre(v: i32) -> (fixed: i32)
    ensures
        fixed == spec_block_centre(v),
{
    let wide: i64 = v as i64 * 32 + 16;
    if wide > i32::MAX as i64 {
        i32::MAX
    } else if wide < i32::MIN as i64 {
        i32::MIN
    } else {
        wide as i32
    }
}

/// Whether a digging packet breaks the block it names: in creative mode
/// the start of digging does, in any other mode its end, and air is never
/// broken.
pub open spec fn spec_dig_breaks(mode: GameMode, status: DiggingStatus, state: u16) -> bool {
    state != 0 && if mode == GameMode::Creative {
        status == DiggingStatus::StartDigging
    } else {
        status == DiggingStatus::FinishDigging
    }
}

/// The packets that put the item of a broken block into the world, as the
/// entity `eid`: an object in the middle of the block, and its metadata,
/// which names the block as a stack of one.
pub open spec fn spec_drop_actions(location: BlockPos, state: u16, eid: i32) -> Seq<ActionView> {
    seq![
        ActionView::Broadcast(
            PacketView::S0ESpawnObject {
                entity_id: eid,
                kind: 2,
                x: spec_block_centre(location.x),
                y: spec_block_centre(location.y),
                z: spec_block_centre(location.z),
                pitch: 0,
                yaw: 0,
                data: 0,
            },
        ),
        ActionView::Broadcast(
            PacketView::S1CEntityMeta {
                entity_id: eid,
                entries: seq![
                    EntityMetaEntryView {
                        index: 10,
                        data: EntityMetaDataView::Slot(
                            ItemStack {
                                id: spec_block_id(state) as i16,
                                count: 1,
                                damage: spec_block_meta(state),
                            },
                        ),
                    },
                ],
            },
        ),
    ]
}

/// The packet that tells all players of a changed block.
pub open spec fn spec_block_change(location: BlockPos, state: u16) -> ActionView {
    ActionView::Broadcast(PacketView::S23BlockChange { location, block_state: state })
}

/// What a digging packet comes to. A block that is broken becomes air and
/// all players are told; outside creative mode its item is dropped under a
/// new entity id.
pub open spec fn spec_dug(
    pre: ClientHandler,
    server_pre: ServerHandler,
    status: DiggingStatus,
    location: BlockPos,
    post: ClientHandler,
    server_post: ServerHandler,
    actions: Seq<ActionView>,
) -> bool {
    let state = spec_world_block(
        server_pre.world@,
        location.x as int,
        location.y as int,
        location.z as int,
    );
    let creative = pre.player.game_mode == GameMode::Creative;
    &&& post.player == pre.player
    &&& spec_session_kept(pre, post)
    &&& server_post.wf()
    &&& server_post.config == server_pre.config
    &&& server_post.gen == server_pre.gen
    &&& server_post.player_counter == server_pre.player_counter
    &&& if spec_dig_breaks(pre.player.game_mode, status, state) {
        &&& server_post.world@ == spec_world_set_block(
            server_pre.world@,
            location.x as int,
            location.y as int,
            location.z as int,
            0,
        )
        &&& if creative {
            &&& server_post.id_counter == server_pre.id_counter
            &&& actions == seq![spec_block_change(location, 0)]
        } else {
            &&& server_post.id_counter == ServerHandler::spec_wrapping_add(
                server_pre.id_counter,
                1,
            )
            &&& actions == seq![spec_block_change(location, 0)] + spec_drop_actions(
                location,
                state,
                server_pre.id_counter,
            )
        }
    } else {
        &&& server_post.world@ == server_pre.world@
        &&& server_post.id_counter == server_pre.id_counter
        &&& actions == Seq::<ActionView>::empty()
    }
}

/// Where a placed block goes: onto the block that was clicked if that is
/// tall grass, else next to it across the face that was clicked. Nowhere
/// for the face `Special` and where the neighbour has no coordinates.
pub open spec fn spec_place_target(location: BlockPos, face: BlockFace, state: u16) -> Option<
    BlockPos,
> {
    if face == BlockFace::Special {
        None
    } else if spec_block_id(state) == TALL_GRASS {
        Some(location)
    } else if location.can_offset(face) {
        Some(
            BlockPos {
                x: location.spec_offset(face).0 as i32,
                y: location.spec_offset(face).1 as i32,
                z: location.spec_offset(face).2 as i32,
            },
        )
    } else {
        None
    }
}

/// The block state that a held stack places: none for an empty hand and
/// for an id that is no block id.
pub open spec fn spec_place_state(held: Option<ItemStack>) -> Option<u16> {
    match held {
        Some(stack) => if 0 <= stack.id <= 255 {
            Some(spec_block_state(stack.id as u8, stack.damage))
        } else {
            None
        },
        None => None,
    }
}

/// What a block placement comes to: where there is a place and a block to
/// put there, the block is set and all players are told.
pub open spec fn spec_placed(
    pre: ClientHandler,
    server_pre: ServerHandler,
    location: BlockPos,
    face: BlockFace,
    post: ClientHandler,
    server_post: ServerHandler,
    actions: Seq<ActionView>,
) -> bool {
    let state = spec_world_block(
        server_pre.world@,
        location.x as int,
        location.y as int,
        location.z as int,
    );
    &&& post.player == pre.player
    &&& spec_session_kept(pre, post)
    &&& server_post.wf()
    &&& server_post.config == server_pre.config
    &&& server_post.gen == server_pre.gen
    &&& server_post.player_counter == server_pre.player_counter
    &&& server_post.id_counter == server_pre.id_counter
    &&& match (spec_place_target(location, face, state), spec_place_state(
        pre.player.spec_held_item(),
    )) {
        (Some(target), Some(new_state)) => {
            &&& server_post.world@ == spec_world_set_block(
                server_pre.world@,
                target.x as int,
                target.y as int,
                target.z as int,
                new_state,
            )
            &&& actions == seq![spec_block_change(target, new_state)]
        },
        _ => {
            &&& server_post.world@ == server_pre.world@
            &&& actions == Seq::<ActionView>::empty()
        },
    }
}

impl ClientHandler {
    /// Sets a block and tells all players.
    fn change_block(server: &mut ServerHandler, location: BlockPos, block_state: u16, actions: &mut Vec<
        Action,
    >)
        requires
            old(server).wf(),
        ensures
            final(server).wf(),
            final(server).config == old(server).config,
            final(server).gen == old(server).gen,
            final(server).player_counter == old(server).player_counter,
            final(server).id_counter == old(server).id_counter,
            final(server).world@ == spec_world_set_block(
                old(server).world@,
                location.x as int,
                location.y as int,
                location.z as int,
                block_state,
            ),
            spec_actions(final(actions)@) == spec_actions(old(actions)@).push(
                spec_block_change(location, block_state),
            ),
    {
        server.world.set_block(location.x, location.y, location.z, block_state);
        emit(actions, Action::Broadcast(Packet::S23BlockChange { location, block_state }));
    }

    /// Answers a digging packet: see `spec_dug`.
    pub fn on_digging(
        &mut self,
        server: &mut ServerHandler,
        status: DiggingStatus,
        location: BlockPos,
    ) -> (actions: Vec<Action>)
        requires
            old(server).wf(),
        ensures
            spec_dug(
                *old(self),
                *old(server),
                status,
                location,
                *final(self),
                *final(server),
                spec_actions(actions@),
            ),
    {
        let mut actions = no_actions();
        let is_creative = match self.player.game_mode {
            GameMode::Creative => true,
            _ => false,
        };
        let wanted = match status {
            DiggingStatus::StartDigging => is_creative,
            DiggingStatus::FinishDigging => !is_creative,
            _ => false,
        };
        if !wanted {
            return actions;
        }
        let state = server.world.get_block(location.x, location.y, location.z);
        if state == 0 {
            return actions;
        }
        Self::change_block(server, location, 0, &mut actions);
        assert(spec_actions(actions@) =~= seq![spec_block_change(location, 0)]);
        if !is_creative {
            let eid = server.new_id();
            emit(
                &mut actions,
                Action::Broadcast(
                    Packet::S0ESpawnObject {
                        entity_id: eid,
                        kind: 2,
                        x: block_centre(location.x),
                        y: block_centre(location.y),
                        z: block_centre(location.z),
                        pitch: 0,
                        yaw: 0,
                        data: 0,
                    },
                ),
            );
            let mut entries: Vec<EntityMetaEntry> = Vec::new();
            entries.push(
                EntityMetaEntry::new(
                    10,
                    EntityMetaData::Slot(
                        ItemStack {
                            id: block_id(state) as i16,
                            count: 1,
                            damage: block_meta(state),
                        },
                    ),
                ),
            );
            let ghost entry_views = entries@.map_values(|e: EntityMetaEntry| e@);
            assert(entry_views =~= seq![
                EntityMetaEntryView {
                    index: 10,
                    data: EntityMetaDataView::Slot(
                        ItemStack {
                            id: spec_block_id(state) as i16,
                            count: 1,
                            damage: spec_block_meta(state),
                        },
                    ),
                },
            ]);
            emit(&mut actions, Action::Broadcast(Packet::S1CEntityMeta { entity_id: eid, entries }));
            assert(spec_actions(actions@) =~= seq![spec_block_change(location, 0)]
                + spec_drop_actions(location, state, eid));
        }
        actions
    }

    /// Answers a block placement: see `spec_placed`.
    pub fn on_placement(
        &mut self,
        server: &mut ServerHandler,
        location: BlockPos,
        face: BlockFace,
    ) -> (actions: Vec<Action>)
        requires
            old(server).wf(),
        ensures
            spec_placed(
                *old(self),
                *old(server),
                location,
                face,
                *final(self),
                *final(server),
                spec_actions(actions@),
            ),
    {
        let mut actions = no_actions();
        let state = server.world.get_block(location.x, location.y, location.z);
        let target = match face {
            BlockFace::Special => None,
            _ => if block_id(state) == TALL_GRASS {
                Some(location)
            } else {
                location.checked_offset(face)
            },
        };
        let new_state = match self.player.held_item() {
            Some(stack) => if 0 <= stack.id && stack.id <= 255 {
                Some(block_state(stack.id as u8, stack.damage))
            } else {
                None
            },
            None => None,
        };
        match (target, new_state) {
            (Some(target), Some(new_state)) => {
                Self::change_block(server, target, new_state, &mut actions);
                assert(spec_actions(actions@) =~= seq![spec_block_change(target, new_state)]);
            },
            _ => {},
        }
        actions
    }
}

} // verus!
