//! The login sequence.

use crate::client::actions::{
    emit, no_actions, spec_actions, spec_codec_after, lemma_codec_after_concat, Action,
    ActionView,
};
use crate::client::chunks::{
    bulk_packets, lemma_bulk_keeps_codec, spec_bulk_actions, spec_chunk_list,
    spec_known_after_send,
};
use crate::client::messages::{chat_packet, spec_chat_packet, spec_join_line};
use crate::client::ClientHandler;
use crate::config::ServerConfig;
use crate::mc::proto::{
    Packet, PacketView, PlayState, PlayerListItemAction, PlayerListItemActionView,
};
use crate::model::Player;
use crate::server::ServerHandler;
use crate::text::{join, spec_uuid_text, uuid_text};
use crate::world::Chunk;
use vstd::prelude::*;
use vstd::string::*;

verus! {

/// The bits of the 64-bit float 64.0: the height at which a player spawns.
pub const SPAWN_HEIGHT: u64 = 0x4050_0000_0000_0000;

/// The compression threshold as the login packet carries it.
pub open spec fn spec_threshold_field(threshold: usize) -> i32 {
    if threshold <= i32::MAX {
        threshold as i32
    } else {
        i32::MAX
    }
}

/// What a login comes to: the player has its name, the server counts one
/// player more, the client knows the chunks of the region around the
/// origin that the world holds, and the actions are the head of a login,
/// the bulk packets of those chunks, and the tail of a login.
pub open spec fn spec_logged_in(
    pre: ClientHandler,
    server_pre: ServerHandler,
    username: Seq<char>,
    post: ClientHandler,
    server_post: ServerHandler,
    actions: Seq<ActionView>,
) -> bool {
    &&& server_post.wf()
    &&& spec_renamed(pre.player, post.player, username)
    &&& post.current_chunk_pos == pre.current_chunk_pos
    &&& post.awaiting == pre.awaiting
    &&& post.known() == spec_known_after_send(
        server_pre.world@,
        pre.known(),
        0,
        0,
        server_pre.config.view_dist,
    )
    &&& server_post.config == server_pre.config
    &&& server_post.world == server_pre.world
    &&& server_post.gen == server_pre.gen
    &&& server_post.id_counter == server_pre.id_counter
    &&& server_post.player_counter == ServerHandler::spec_wrapping_add(
        server_pre.player_counter,
        1,
    )
    &&& exists|sent: Seq<Chunk>|
        {
            &&& spec_chunk_list(
                sent,
                server_pre.world@,
                pre.known(),
                0,
                0,
                server_pre.config.view_dist,
            )
            &&& actions == spec_login_head(server_pre.config, pre.player, username)
                + spec_bulk_actions(sent) + spec_login_tail(pre.player, username)
        }
}

/// What a login starts with: compression is announced and switched on, the
/// login is confirmed, the codec goes to the play phase, and the player is
/// told what game it joins.
pub open spec fn spec_login_head(config: ServerConfig, player: Player, username: Seq<char>) -> Seq<
    ActionView,
> {
    seq![
        ActionView::Send(
            PacketView::S03LoginCompression {
                threshold: spec_threshold_field(config.net_compression),
            },
        ),
        ActionView::SetCompression(config.net_compression),
        ActionView::Send(
            PacketView::S02LoginSuccess { uuid: spec_uuid_text(player.uuid), username },
        ),
        ActionView::SetState(PlayState::Play),
        ActionView::Send(
            PacketView::S01JoinGame {
                entity_id: player.eid,
                game_mode: player.game_mode,
                dimension: 0,
                difficulty: config.difficulty,
                player_list_size: 4,
                world_type: "default"@,
                reduced_debug_info: false,
            },
        ),
    ]
}

/// What a login ends with: the player is put at the spawn point, and all
/// players are told of the newcomer.
pub open spec fn spec_login_tail(player: Player, username: Seq<char>) -> Seq<ActionView> {
    seq![
        ActionView::Send(
            PacketView::S08SetPlayerPosition {
                x: 0,
                y: SPAWN_HEIGHT,
                z: 0,
                yaw: 0,
                pitch: 0,
                flags: 0,
            },
        ),
        ActionView::Broadcast(spec_chat_packet(1, spec_join_line(username))),
        ActionView::Broadcast(
            PacketView::S38PlayerListItem {
                uuid: player.uuid,
                action: PlayerListItemActionView::AddPlayer {
                    name: username,
                    game_mode: player.game_mode,
                    ping: 0,
                    display_name: None,
                },
            },
        ),
    ]
}

/// Whether `after` is `before` but for the user name.
pub open spec fn spec_renamed(before: Player, after: Player, username: Seq<char>) -> bool {
    &&& after.username@ == username
    &&& after.eid == before.eid
    &&& after.uuid == before.uuid
    &&& after.position == before.position
    &&& after.rotation == before.rotation
    &&& after.game_mode == before.game_mode
    &&& after.fly_speed == before.fly_speed
    &&& after.walk_speed == before.walk_speed
    &&& after.inventory == before.inventory
    &&& after.selected_slot == before.selected_slot
}

impl ClientHandler {
    /// Logs the player in under `username`: see `spec_logged_in`.
    pub fn on_login_start(&mut self, server: &mut ServerHandler, username: String) -> (actions: Vec<
        Action,
    >)
        requires
            old(server).wf(),
        ensures
            spec_logged_in(
                *old(self),
                *old(server),
                username@,
                *final(self),
                *final(server),
                spec_actions(actions@),
            ),
    {
        let ghost config = server.config;
        let ghost before = self.player;
        let name_for_success = username.clone();
        let name_for_list = username.clone();
        let line = join(
            join(String::from_str("\u{a7}e"), username.as_str()),
            " joined the game",
        );
        self.player.username = username;
        server.change_num_players(1);
        let threshold: i32 = if server.config.net_compression <= 0x7FFF_FFFF {
            server.config.net_compression as i32
        } else {
            0x7FFF_FFFF
        };
        let mut actions = no_actions();
        emit(&mut actions, Action::Send(Packet::S03LoginCompression { threshold }));
        emit(&mut actions, Action::SetCompression(server.config.net_compression));
        emit(
            &mut actions,
            Action::Send(
                Packet::S02LoginSuccess {
                    uuid: uuid_text(self.player.uuid),
                    username: name_for_success,
                },
            ),
        );
        emit(&mut actions, Action::SetState(PlayState::Play));
        emit(
            &mut actions,
            Action::Send(
                Packet::S01JoinGame {
                    entity_id: self.player.eid,
                    game_mode: self.player.game_mode,
                    dimension: 0,
                    difficulty: server.config.difficulty,
                    player_list_size: 4,
                    world_type: String::from_str("default"),
                    reduced_debug_info: false,
                },
            ),
        );
        assert(spec_actions(actions@) =~= spec_login_head(config, before, username@));
        let sent = self.send_chunks(&server.world, 0, 0, server.config.view_dist);
        let mut bulk = bulk_packets(&sent);
        let ghost head = spec_actions(actions@);
        actions.append(&mut bulk);
        assert(spec_actions(actions@) =~= head + spec_bulk_actions(sent@));
        emit(
            &mut actions,
            Action::Send(
                Packet::S08SetPlayerPosition {
                    x: 0,
                    y: SPAWN_HEIGHT,
                    z: 0,
                    yaw: 0,
                    pitch: 0,
                    flags: 0,
                },
            ),
        );
        emit(&mut actions, Action::Broadcast(chat_packet(1, line.as_str())));
        emit(
            &mut actions,
            Action::Broadcast(
                Packet::S38PlayerListItem {
                    uuid: self.player.uuid,
                    action: PlayerListItemAction::AddPlayer {
                        name: name_for_list,
                        game_mode: self.player.game_mode,
                        ping: 0,
                        display_name: None,
                    },
                },
            ),
        );
        assert(spec_actions(actions@) =~= spec_login_head(config, before, username@)
            + spec_bulk_actions(sent@) + spec_login_tail(before, username@));
        assert(spec_chunk_list(
            sent@,
            old(server).world@,
            old(self).known(),
            0,
            0,
            old(server).config.view_dist,
        ));
        actions
    }
}

/// After a login the codec is in the play phase, and its compression
/// threshold is the one that the server is set to.
pub proof fn lemma_login_sets_codec(
    config: ServerConfig,
    player: Player,
    username: Seq<char>,
    sent: Seq<Chunk>,
    codec: (PlayState, usize),
)
    ensures
        spec_codec_after(
            spec_login_head(config, player, username) + spec_bulk_actions(sent) + spec_login_tail(
                player,
                username,
            ),
            codec,
        ) == (PlayState::Play, config.net_compression),
{
    let head = spec_login_head(config, player, username);
    let bulk = spec_bulk_actions(sent);
    let tail = spec_login_tail(player, username);
    let done = (PlayState::Play, config.net_compression);
    assert(spec_codec_after(head, codec) == done) by {
        let h4 = head.drop_last();
        let h3 = h4.drop_last();
        let h2 = h3.drop_last();
        let h1 = h2.drop_last();
        assert(h1.drop_last() =~= Seq::<ActionView>::empty());
        assert(spec_codec_after(h1.drop_last(), codec) == codec);
        assert(spec_codec_after(h1, codec) == codec);
        assert(spec_codec_after(h2, codec) == (codec.0, config.net_compression));
        assert(spec_codec_after(h3, codec) == (codec.0, config.net_compression));
        assert(spec_codec_after(h4, codec) == done);
    }
    lemma_codec_after_concat(head, bulk, codec);
    lemma_bulk_keeps_codec(sent, done);
    lemma_codec_after_concat(head + bulk, tail, codec);
    assert(spec_codec_after(tail, done) == done) by {
        let t2 = tail.drop_last();
        let t1 = t2.drop_last();
        assert(t1.drop_last() =~= Seq::<ActionView>::empty());
        assert(spec_codec_after(t1.drop_last(), done) == done);
        assert(spec_codec_after(t1, done) == done);
        assert(spec_codec_after(t2, done) == done);
    }
}

} // verus!
