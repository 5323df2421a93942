//! The session of one connection: what the server does on each packet from
//! the client.
//!
//! A session owns no socket. Each packet is answered with a list of actions
//! that the caller carries out in order: packets to send, packets to
//! broadcast, changes to the codec, a region to wait for.

pub mod actions;
pub mod blocks;
pub mod chunks;
pub mod commands;
pub mod login;
pub mod messages;

pub use crate::client::actions::{apply_to_codec, Action};
pub use crate::client::blocks::block_centre;
pub use crate::client::chunks::{bulk_packets, in_region};
pub use crate::client::commands::SpeedArg;
pub use crate::client::messages::{chat_packet, game_mode_float, status_response, str_eq};

use crate::client::actions::{emit, no_actions, spec_actions, ActionView};
use crate::client::blocks::{spec_dug, spec_placed};
use crate::client::chunks::{lemma_region_bound, spec_moved, spec_shipped, spec_to_send};
use crate::client::commands::{spec_chatted, spec_speed_view};
use crate::client::login::spec_logged_in;
use crate::client::messages::spec_status_json;
use crate::float_bits::{double_to_i32, spec_double_to_i32};
use crate::mc::proto::{Packet, PacketView, PlayState};
use crate::model::{GameMode, Player, Vec2f, Vec3d};
use crate::server::ServerHandler;
use crate::world::chunk_set::ChunkSet;
use crate::world::sched::spec_in_region;
use crate::world::ChunkPos;
use vstd::prelude::*;

verus! {

/// The protocol version that the server speaks.
pub const PROTOCOL_VERSION: i32 = 47;

/// What a handshake is answered with: the codec goes to the phase asked
/// for, or the connection is closed where the client speaks another
/// protocol version.
pub open spec fn spec_handshake_actions(protocol_version: i32, next_state: PlayState) -> Seq<
    ActionView,
> {
    if protocol_version != PROTOCOL_VERSION {
        seq![ActionView::Disconnect]
    } else {
        seq![ActionView::SetState(next_state)]
    }
}

/// The session of one connection.
pub struct ClientHandler {
    pub player: Player,
    /// The chunks that the client was shipped and not told to drop.
    pub known_chunks: ChunkSet,
    /// The chunk that the player was last seen in.
    pub current_chunk_pos: ChunkPos,
    /// Whether a region was asked for that the client was not shipped yet.
    pub awaiting: bool,
}

impl ClientHandler {
    /// The chunks that the client knows.
    pub open spec fn known(&self) -> Set<ChunkPos> {
        self.known_chunks@
    }

    /// Whether the session is in order for a view distance: the inventory
    /// has its slots and, unless a region is awaited, every chunk that the
    /// client knows lies in the region around the player.
    pub open spec fn wf(&self, view_dist: i32) -> bool {
        &&& self.player.wf()
        &&& !self.awaiting ==> forall|p: ChunkPos| #[trigger]
            self.known().contains(p) ==> spec_in_region(
                p,
                self.current_chunk_pos.x,
                self.current_chunk_pos.z,
                view_dist,
            )
    }

    /// The session of a connection that was just accepted: a player that
    /// has not logged in, at the origin, who knows no chunk.
    pub fn new(id: i32, game_mode: GameMode) -> (session: ClientHandler)
        ensures
            session.player.spec_fresh(id, game_mode),
            session.known() == Set::<ChunkPos>::empty(),
            session.current_chunk_pos == (ChunkPos { x: 0, z: 0 }),
            !session.awaiting,
            forall|view_dist: i32| session.wf(view_dist),
    {
        ClientHandler {
            player: Player::new(id, game_mode),
            known_chunks: ChunkSet::new(),
            current_chunk_pos: ChunkPos::new(0, 0),
            awaiting: false,
        }
    }

    /// Answers a handshake.
    pub fn on_handshake(&self, protocol_version: i32, next_state: PlayState) -> (actions: Vec<
        Action,
    >)
        ensures
            spec_actions(actions@) == spec_handshake_actions(protocol_version, next_state),
    {
        let mut actions = no_actions();
        if protocol_version != PROTOCOL_VERSION {
            emit(&mut actions, Action::Disconnect);
        } else {
            emit(&mut actions, Action::SetState(next_state));
        }
        assert(spec_actions(actions@) =~= spec_handshake_actions(protocol_version, next_state));
        actions
    }
}

/// Whether the server is as it was.
pub open spec fn spec_server_kept(before: ServerHandler, after: ServerHandler) -> bool {
    &&& after.config == before.config
    &&& after.world == before.world
    &&& after.gen == before.gen
    &&& after.id_counter == before.id_counter
    &&& after.player_counter == before.player_counter
}

/// Whether the session is as it was, but for its player.
pub open spec fn spec_session_kept(before: ClientHandler, after: ClientHandler) -> bool {
    &&& after.known() == before.known()
    &&& after.current_chunk_pos == before.current_chunk_pos
    &&& after.awaiting == before.awaiting
}

/// Something that a session is woken by.
#[derive(Clone, Debug, PartialEq)]
pub enum Event {
    /// A packet from the client was decoded.
    Inbound(Packet),
    /// The broker handed over a packet for the client.
    Outbound(Packet),
    /// The keep-alive timer ran out.
    KeepAlive,
    /// The region that the session waited for is generated.
    RegionReady,
    /// The connection or the broker's queue was closed.
    Closed,
}

/// `Event` with the views of its packets.
pub enum EventView {
    Inbound(PacketView),
    Outbound(PacketView),
    KeepAlive,
    RegionReady,
    Closed,
}

impl View for Event {
    type V = EventView;

    open spec fn view(&self) -> EventView {
        match *self {
            Event::Inbound(p) => EventView::Inbound(p@),
            Event::Outbound(p) => EventView::Outbound(p@),
            Event::KeepAlive => EventView::KeepAlive,
            Event::RegionReady => EventView::RegionReady,
            Event::Closed => EventView::Closed,
        }
    }
}

/// What the end of a connection comes to: a player that was logged in is
/// counted no more.
pub open spec fn spec_closed(
    pre: ClientHandler,
    server_pre: ServerHandler,
    server_post: ServerHandler,
) -> bool {
    &&& server_post.config == server_pre.config
    &&& server_post.world == server_pre.world
    &&& server_post.gen == server_pre.gen
    &&& server_post.id_counter == server_pre.id_counter
    &&& server_post.player_counter == if pre.player.username@.len() > 0 {
        ServerHandler::spec_wrapping_add(server_pre.player_counter, -1i32)
    } else {
        server_pre.player_counter
    }
}

impl ClientHandler {
    /// The packet that keeps the connection alive.
    pub fn keep_alive(&self) -> (packet: Packet)
        ensures
            packet@ == (PacketView::S00KeepAlive { timestamp: 69 }),
    {
        Packet::S00KeepAlive { timestamp: 69 }
    }

    /// Takes note that the connection is closed: a player that was logged
    /// in is counted no more.
    pub fn on_disconnect(&self, server: &mut ServerHandler)
        ensures
            spec_closed(*self, *old(server), *final(server)),
    {
        if self.player.is_logged_in() {
            server.change_num_players(-1);
        }
    }
}

/// Whether neither the session nor the server changed.
pub open spec fn spec_unchanged(
    pre: ClientHandler,
    server_pre: ServerHandler,
    post: ClientHandler,
    server_post: ServerHandler,
) -> bool {
    &&& post.player == pre.player
    &&& spec_session_kept(pre, post)
    &&& spec_server_kept(server_pre, server_post)
}

/// The chunk that holds the point whose x and z are the 64-bit floats with
/// the given bits.
pub open spec fn spec_chunk_of(x: u64, z: u64) -> ChunkPos {
    ChunkPos::spec_from_block_pos(spec_double_to_i32(x), spec_double_to_i32(z))
}

/// What a position report comes to: the player is where the report says,
/// turned as it says where it says so, and is followed into its chunk.
pub open spec fn spec_positioned(
    pre: ClientHandler,
    server_pre: ServerHandler,
    position: Vec3d,
    rotation: Option<Vec2f>,
    post: ClientHandler,
    server_post: ServerHandler,
    actions: Seq<ActionView>,
) -> bool {
    let placed = ClientHandler {
        player: Player {
            position,
            rotation: match rotation {
                Some(r) => r,
                None => pre.player.rotation,
            },
            ..pre.player
        },
        ..pre
    };
    spec_moved(
        placed,
        server_pre,
        spec_chunk_of(position.x, position.z),
        post,
        server_post,
        actions,
    )
}

/// Whether `after` is `before` but for the inventory and the selected slot.
pub open spec fn spec_player_equipped(before: Player, after: Player) -> bool {
    &&& after.eid == before.eid
    &&& after.uuid == before.uuid
    &&& after.username == before.username
    &&& after.position == before.position
    &&& after.rotation == before.rotation
    &&& after.game_mode == before.game_mode
    &&& after.fly_speed == before.fly_speed
    &&& after.walk_speed == before.walk_speed
}

/// What a packet from the client comes to.
///
/// A handshake sets the codec's phase. A status request and a ping are
/// answered. A login start logs the player in. While playing, chat is shown
/// or carried out, position reports move the player, digging and placing
/// change blocks, and the remaining packets change the player's record or
/// nothing at all. Packets that a client does not send are passed over.
pub open spec fn spec_handled(
    pre: ClientHandler,
    server_pre: ServerHandler,
    packet: PacketView,
    speed: Option<(u32, Seq<char>)>,
    post: ClientHandler,
    server_post: ServerHandler,
    actions: Seq<ActionView>,
) -> bool {
    match packet {
        PacketView::C00Handshake { protocol_version, next_state, .. } => {
            &&& spec_unchanged(pre, server_pre, post, server_post)
            &&& actions == spec_handshake_actions(protocol_version, next_state)
        },
        PacketView::C00StatusRequest => {
            &&& spec_unchanged(pre, server_pre, post, server_post)
            &&& actions == seq![
                ActionView::Send(
                    PacketView::S00StatusResponse {
                        status: spec_status_json(
                            server_pre.config.motd@,
                            server_pre.config.slots,
                            server_pre.player_counter,
                        ),
                    },
                ),
            ]
        },
        PacketView::C01StatusPing { timestamp } => {
            &&& spec_unchanged(pre, server_pre, post, server_post)
            &&& actions == seq![ActionView::Send(PacketView::S01StatusPong { timestamp })]
        },
        PacketView::C00LoginStart { username } => spec_logged_in(
            pre,
            server_pre,
            username,
            post,
            server_post,
            actions,
        ),
        PacketView::C01ChatMessage { message } => {
            &&& spec_server_kept(server_pre, server_post)
            &&& spec_chatted(pre, message, speed, post, actions)
        },
        PacketView::C04PlayerPos { x, y, z, .. } => spec_positioned(
            pre,
            server_pre,
            Vec3d { x, y, z },
            None,
            post,
            server_post,
            actions,
        ),
        PacketView::C05PlayerRot { yaw, pitch, .. } => {
            &&& post.player == (Player { rotation: Vec2f { x: yaw, y: pitch }, ..pre.player })
            &&& spec_session_kept(pre, post)
            &&& spec_server_kept(server_pre, server_post)
            &&& actions == Seq::<ActionView>::empty()
        },
        PacketView::C06PlayerPosRot { x, y, z, yaw, pitch, .. } => spec_positioned(
            pre,
            server_pre,
            Vec3d { x, y, z },
            Some(Vec2f { x: yaw, y: pitch }),
            post,
            server_post,
            actions,
        ),
        PacketView::C07PlayerDigging { status, location, .. } => spec_dug(
            pre,
            server_pre,
            status,
            location,
            post,
            server_post,
            actions,
        ),
        PacketView::C08PlayerBlockPlacement { location, face } => spec_placed(
            pre,
            server_pre,
            location,
            face,
            post,
            server_post,
            actions,
        ),
        PacketView::C09HeldItemChange { slot } => {
            &&& post.player == (Player { selected_slot: slot, ..pre.player })
            &&& spec_session_kept(pre, post)
            &&& spec_server_kept(server_pre, server_post)
            &&& actions == Seq::<ActionView>::empty()
        },
        PacketView::C10SetCreativeSlot { slot_id, item } => {
            &&& spec_player_equipped(pre.player, post.player)
            &&& post.player.selected_slot == pre.player.selected_slot
            &&& post.player.inventory@ == Player::spec_with_item(
                pre.player.inventory@,
                slot_id,
                item,
            )
            &&& spec_session_kept(pre, post)
            &&& spec_server_kept(server_pre, server_post)
            &&& actions == Seq::<ActionView>::empty()
        },
        _ => {
            &&& spec_unchanged(pre, server_pre, post, server_post)
            &&& actions == Seq::<ActionView>::empty()
        },
    }
}

impl ClientHandler {
    /// Answers a position report: see `spec_positioned`.
    pub fn on_position(
        &mut self,
        server: &mut ServerHandler,
        position: Vec3d,
        rotation: Option<Vec2f>,
    ) -> (actions: Vec<Action>)
        ensures
            spec_positioned(
                *old(self),
                *old(server),
                position,
                rotation,
                *final(self),
                *final(server),
                spec_actions(actions@),
            ),
    {
        self.player.position = position;
        match rotation {
            Some(r) => {
                self.player.rotation = r;
            },
            None => {},
        }
        let center = ChunkPos::from_block_pos(
            double_to_i32(position.x),
            double_to_i32(position.z),
        );
        self.update_chunks(server, center)
    }

    /// Answers a packet from the client: see `spec_handled`. `speed` is the
    /// first argument of a command line read as a speed, where the packet
    /// is a command line whose first argument can be read as one.
    pub fn handle_packet(
        &mut self,
        server: &mut ServerHandler,
        packet: Packet,
        speed: Option<&SpeedArg>,
    ) -> (actions: Vec<Action>)
        requires
            old(server).wf(),
        ensures
            final(server).wf(),
            spec_handled(
                *old(self),
                *old(server),
                packet@,
                spec_speed_view(speed),
                *final(self),
                *final(server),
                spec_actions(actions@),
            ),
    {
        match packet {
            Packet::C00Handshake { protocol_version, next_state, .. } => self.on_handshake(
                protocol_version,
                next_state,
            ),
            Packet::C00StatusRequest => {
                let mut actions = no_actions();
                let online = server.num_players();
                emit(&mut actions, Action::Send(status_response(&server.config, online)));
                assert(spec_actions(actions@) =~= seq![
                    ActionView::Send(
                        PacketView::S00StatusResponse {
                            status: spec_status_json(
                                server.config.motd@,
                                server.config.slots,
                                server.player_counter,
                            ),
                        },
                    ),
                ]);
                actions
            },
            Packet::C01StatusPing { timestamp } => {
                let mut actions = no_actions();
                emit(&mut actions, Action::Send(Packet::S01StatusPong { timestamp }));
                assert(spec_actions(actions@) =~= seq![
                    ActionView::Send(PacketView::S01StatusPong { timestamp }),
                ]);
                actions
            },
            Packet::C00LoginStart { username } => self.on_login_start(server, username),
            Packet::C01ChatMessage { message } => self.on_chat(message.as_str(), speed),
            Packet::C04PlayerPos { x, y, z, .. } => self.on_position(
                server,
                Vec3d { x, y, z },
                None,
            ),
            Packet::C05PlayerRot { yaw, pitch, .. } => {
                self.player.rotation = Vec2f { x: yaw, y: pitch };
                no_actions()
            },
            Packet::C06PlayerPosRot { x, y, z, yaw, pitch, .. } => self.on_position(
                server,
                Vec3d { x, y, z },
                Some(Vec2f { x: yaw, y: pitch }),
            ),
            Packet::C07PlayerDigging { status, location, .. } => self.on_digging(
                server,
                status,
                location,
            ),
            Packet::C08PlayerBlockPlacement { location, face } => self.on_placement(
                server,
                location,
                face,
            ),
            Packet::C09HeldItemChange { slot } => {
                self.player.selected_slot = slot;
                no_actions()
            },
            Packet::C10SetCreativeSlot { slot_id, item } => {
                self.player.set_item(slot_id, item);
                no_actions()
            },
            _ => no_actions(),
        }
    }
}

/// What an event comes to.
///
/// A packet from the client is answered as `spec_handled` says. A packet
/// from the broker is written to the client, and so is a keep-alive packet
/// when the timer runs out. A region that is ready is shipped. When the
/// connection is closed the session takes its leave, and the caller is told
/// to close it.
pub open spec fn spec_stepped(
    pre: ClientHandler,
    server_pre: ServerHandler,
    event: EventView,
    speed: Option<(u32, Seq<char>)>,
    post: ClientHandler,
    server_post: ServerHandler,
    actions: Seq<ActionView>,
) -> bool {
    match event {
        EventView::Inbound(packet) => spec_handled(
            pre,
            server_pre,
            packet,
            speed,
            post,
            server_post,
            actions,
        ),
        EventView::Outbound(packet) => {
            &&& spec_unchanged(pre, server_pre, post, server_post)
            &&& actions == seq![ActionView::Send(packet)]
        },
        EventView::KeepAlive => {
            &&& spec_unchanged(pre, server_pre, post, server_post)
            &&& actions == seq![ActionView::Send(PacketView::S00KeepAlive { timestamp: 69 })]
        },
        EventView::RegionReady => {
            &&& spec_server_kept(server_pre, server_post)
            &&& spec_shipped(pre, server_pre, post, actions)
        },
        EventView::Closed => {
            &&& post.player == pre.player
            &&& spec_session_kept(pre, post)
            &&& spec_closed(pre, server_pre, server_post)
            &&& actions == seq![ActionView::Disconnect]
        },
    }
}

impl ClientHandler {
    /// Answers an event: see `spec_stepped`. `speed` is as for
    /// `handle_packet`.
    pub fn on_event(
        &mut self,
        server: &mut ServerHandler,
        event: Event,
        speed: Option<&SpeedArg>,
    ) -> (actions: Vec<Action>)
        requires
            old(server).wf(),
        ensures
            final(server).wf(),
            spec_stepped(
                *old(self),
                *old(server),
                event@,
                spec_speed_view(speed),
                *final(self),
                *final(server),
                spec_actions(actions@),
            ),
    {
        match event {
            Event::Inbound(packet) => self.handle_packet(server, packet, speed),
            Event::Outbound(packet) => {
                let mut actions = no_actions();
                emit(&mut actions, Action::Send(packet));
                assert(spec_actions(actions@) =~= seq![ActionView::Send(packet@)]);
                actions
            },
            Event::KeepAlive => {
                let mut actions = no_actions();
                emit(&mut actions, Action::Send(self.keep_alive()));
                assert(spec_actions(actions@) =~= seq![
                    ActionView::Send(PacketView::S00KeepAlive { timestamp: 69 }),
                ]);
                actions
            },
            Event::RegionReady => self.region_ready(server),
            Event::Closed => {
                self.on_disconnect(server);
                let mut actions = no_actions();
                emit(&mut actions, Action::Disconnect);
                assert(spec_actions(actions@) =~= seq![ActionView::Disconnect]);
                actions
            },
        }
    }
}

/// Once a region is shipped, the client knows no more chunks than its view
/// holds.
pub proof fn lemma_settled_session_bound(session: ClientHandler, view_dist: i32)
    requires
        session.wf(view_dist),
        !session.awaiting,
        session.known().finite(),
    ensures
        session.known().len() <= (2 * view_dist + 1) * (2 * view_dist + 1),
{
    lemma_region_bound(
        session.known(),
        session.current_chunk_pos.x,
        session.current_chunk_pos.z,
        view_dist,
    );
}

/// A session that is in order stays in order through every packet, as
/// long as a player logs in where a session starts out: at the origin.
pub proof fn lemma_handled_keeps_order(
    pre: ClientHandler,
    server_pre: ServerHandler,
    packet: PacketView,
    speed: Option<(u32, Seq<char>)>,
    post: ClientHandler,
    server_post: ServerHandler,
    actions: Seq<ActionView>,
)
    requires
        spec_handled(pre, server_pre, packet, speed, post, server_post, actions),
        pre.wf(server_pre.config.view_dist),
        packet is C00LoginStart ==> pre.current_chunk_pos == (ChunkPos { x: 0, z: 0 }),
    ensures
        post.wf(server_pre.config.view_dist),
{
    let r = server_pre.config.view_dist;
    if !post.awaiting {
        assert forall|p: ChunkPos| #[trigger] post.known().contains(p) implies spec_in_region(
            p,
            post.current_chunk_pos.x,
            post.current_chunk_pos.z,
            r,
        ) by {
            match packet {
                PacketView::C00LoginStart { username } => {
                    if !pre.known().contains(p) {
                        assert(spec_to_send(server_pre.world@, pre.known(), 0, 0, r, p));
                    }
                },
                _ => {
                    assert(pre.known().contains(p));
                },
            }
        }
    }
}

/// A session that is in order stays in order through every event, as long
/// as a player logs in where a session starts out: at the origin.
pub proof fn lemma_stepped_keeps_order(
    pre: ClientHandler,
    server_pre: ServerHandler,
    event: EventView,
    speed: Option<(u32, Seq<char>)>,
    post: ClientHandler,
    server_post: ServerHandler,
    actions: Seq<ActionView>,
)
    requires
        spec_stepped(pre, server_pre, event, speed, post, server_post, actions),
        pre.wf(server_pre.config.view_dist),
        event matches EventView::Inbound(packet) ==> (packet is C00LoginStart
            ==> pre.current_chunk_pos == (ChunkPos { x: 0, z: 0 })),
    ensures
        post.wf(server_pre.config.view_dist),
{
    match event {
        EventView::Inbound(packet) => {
            lemma_handled_keeps_order(pre, server_pre, packet, speed, post, server_post, actions);
        },
        _ => {},
    }
}

} // verus!
