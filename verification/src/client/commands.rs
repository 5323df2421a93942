//! Chat and slash commands.

use crate::client::actions::{emit, no_actions, spec_actions, Action, ActionView};
use crate::client::messages::{
    chat_packet, game_mode_float, game_mode_name, spec_chat_line, spec_chat_packet,
    spec_error_line, spec_game_mode_float, spec_game_mode_name, str_eq,
};
use crate::client::{spec_session_kept, ClientHandler};
use crate::command::{
    invalid_arg_message, missing_arg_message, spec_command_text, spec_invalid_arg,
    spec_missing_arg, spec_parse_u8, spec_split, Command,
};
use crate::mc::proto::{
    AbilityFlags, GameStateReason, Packet, PacketView, PlayerListItemAction,
    PlayerListItemActionView,
};
use crate::model::{GameMode, Player};
use crate::text::{join, str_chars};
use vstd::prelude::*;
use vstd::string::*;

verus! {

/// The overview that `/help` shows.
pub const HELP_TEXT: &'static str = "== \u{a7}aHelp\u{a7}r ==\n\
\u{a7}9 /help\u{a7}r: Show command overview\n\
\u{a7}9 /gm \u{a7}7<mode>\u{a7}r: Change gamemode\n\
\u{a7}9 /flyspeed \u{a7}7<speed>\u{a7}r: Set flying speed multiplier\n\
\u{a7}9 /walkspeed \u{a7}7<speed>\u{a7}r: Set walking speed multiplier";

/// A speed that a command sets: the bits of a 32-bit float, and the text
/// that shows it.
#[derive(Clone, Debug, PartialEq)]
pub struct SpeedArg {
    pub bits: u32,
    pub text: String,
}

/// What a command does to a player and what it makes the session do.
pub struct CommandEffect {
    pub game_mode: GameMode,
    pub fly_speed: u32,
    pub walk_speed: u32,
    /// The actions before the reply.
    pub emitted: Seq<ActionView>,
    /// The line that the player is shown.
    pub reply: Seq<char>,
}

/// The overview that `/help` shows.
pub open spec fn spec_help_text() -> Seq<char> {
    HELP_TEXT@
}

/// The packet that tells a client what it may do and how fast it moves.
pub open spec fn spec_abilities(mode: GameMode, fly_speed: u32, walk_speed: u32) -> PacketView {
    PacketView::S39PlayerAbilities {
        flags: AbilityFlags::spec_from_game_mode(mode),
        flying_speed: fly_speed,
        walking_speed: walk_speed,
    }
}

/// The game mode that the first argument of `/gm` names: a number from 0
/// to 3.
pub open spec fn spec_mode_arg(parts: Seq<Seq<char>>) -> Option<GameMode> {
    if parts.len() < 2 {
        None
    } else {
        match spec_parse_u8(parts[1]) {
            Some(n) => GameMode::spec_from_u8(n),
            None => None,
        }
    }
}

/// A player with nothing changed by a command.
pub open spec fn spec_no_effect(player: Player, reply: Seq<char>) -> CommandEffect {
    CommandEffect {
        game_mode: player.game_mode,
        fly_speed: player.fly_speed,
        walk_speed: player.walk_speed,
        emitted: Seq::empty(),
        reply,
    }
}

/// What the command line with the pieces `parts` does. `speed` is the
/// first argument read as a speed, where it can be read as one.
///
/// `help` shows the overview. `gm` sets the game mode and tells the client
/// and all players. `flyspeed` and `walkspeed` set a speed and tell the
/// client. A missing or unreadable argument and an unknown command are
/// reported as errors.
pub open spec fn spec_command_effect(
    player: Player,
    parts: Seq<Seq<char>>,
    speed: Option<(u32, Seq<char>)>,
) -> CommandEffect {
    let name = parts[0];
    if name == "help"@ {
        spec_no_effect(player, spec_help_text())
    } else if name == "gm"@ {
        if parts.len() < 2 {
            spec_no_effect(player, spec_error_line(spec_missing_arg(1)))
        } else {
            match spec_mode_arg(parts) {
                None => spec_no_effect(player, spec_error_line(spec_invalid_arg(1))),
                Some(mode) => CommandEffect {
                    game_mode: mode,
                    fly_speed: player.fly_speed,
                    walk_speed: player.walk_speed,
                    emitted: seq![
                        ActionView::Send(
                            PacketView::S2BChangeGameState {
                                reason: GameStateReason::ChangeGameMode,
                                value: spec_game_mode_float(mode),
                            },
                        ),
                        ActionView::Send(spec_abilities(mode, player.fly_speed, player.walk_speed)),
                        ActionView::Broadcast(
                            PacketView::S38PlayerListItem {
                                uuid: player.uuid,
                                action: PlayerListItemActionView::UpdateGameMode { game_mode: mode },
                            },
                        ),
                    ],
                    reply: "Game mode changed to "@ + spec_game_mode_name(mode),
                },
            }
        }
    } else if name == "flyspeed"@ || name == "walkspeed"@ {
        if parts.len() < 2 {
            spec_no_effect(player, spec_error_line(spec_missing_arg(1)))
        } else {
            match speed {
                None => spec_no_effect(player, spec_error_line(spec_invalid_arg(1))),
                Some((bits, text)) => if name == "flyspeed"@ {
                    CommandEffect {
                        game_mode: player.game_mode,
                        fly_speed: bits,
                        walk_speed: player.walk_speed,
                        emitted: seq![
                            ActionView::Send(
                                spec_abilities(player.game_mode, bits, player.walk_speed),
                            ),
                        ],
                        reply: "Flying speed changed to "@ + text,
                    }
                } else {
                    CommandEffect {
                        game_mode: player.game_mode,
                        fly_speed: player.fly_speed,
                        walk_speed: bits,
                        emitted: seq![
                            ActionView::Send(
                                spec_abilities(player.game_mode, player.fly_speed, bits),
                            ),
                        ],
                        reply: "Walking speed changed to "@ + text,
                    }
                },
            }
        }
    } else {
        spec_no_effect(player, spec_error_line(name + ": Unknown command."@))
    }
}

/// The bits and the text of a speed that may be absent.
pub open spec fn spec_speed_view(speed: Option<&SpeedArg>) -> Option<(u32, Seq<char>)> {
    match speed {
        Some(s) => Some((s.bits, s.text@)),
        None => None,
    }
}

/// Whether `after` is `before` but for the game mode and the speeds.
pub open spec fn spec_player_tuned(before: Player, after: Player) -> bool {
    &&& after.eid == before.eid
    &&& after.uuid == before.uuid
    &&& after.username == before.username
    &&& after.position == before.position
    &&& after.rotation == before.rotation
    &&& after.inventory == before.inventory
    &&& after.selected_slot == before.selected_slot
}

/// What a command line comes to: the command's effect on the player, its
/// actions, and its reply as a system message.
pub open spec fn spec_commanded(
    pre: ClientHandler,
    line: Seq<char>,
    speed: Option<(u32, Seq<char>)>,
    post: ClientHandler,
    actions: Seq<ActionView>,
) -> bool {
    let effect = spec_command_effect(pre.player, spec_split(spec_command_text(line), ' '), speed);
    &&& spec_session_kept(pre, post)
    &&& spec_player_tuned(pre.player, post.player)
    &&& post.player.game_mode == effect.game_mode
    &&& post.player.fly_speed == effect.fly_speed
    &&& post.player.walk_speed == effect.walk_speed
    &&& actions == effect.emitted.push(ActionView::Send(spec_chat_packet(1, effect.reply)))
}

/// What a chat message comes to. A line that starts with a slash is a
/// command. Any other line is shown to all players in the chat box.
pub open spec fn spec_chatted(
    pre: ClientHandler,
    message: Seq<char>,
    speed: Option<(u32, Seq<char>)>,
    post: ClientHandler,
    actions: Seq<ActionView>,
) -> bool {
    if message.len() > 0 && message[0] == '/' {
        spec_commanded(pre, message, speed, post, actions)
    } else {
        &&& post.player == pre.player
        &&& spec_session_kept(pre, post)
        &&& actions == seq![
            ActionView::Broadcast(
                spec_chat_packet(0, spec_chat_line(pre.player.username@, message)),
            ),
        ]
    }
}

/// The overview that `/help` shows.
fn help_text() -> (text: String)
    ensures
        text@ == spec_help_text(),
{
    String::from_str(HELP_TEXT)
}

impl ClientHandler {
    /// The packet that tells the client what the player may do.
    fn abilities_packet(&self) -> (packet: Packet)
        ensures
            packet@ == spec_abilities(
                self.player.game_mode,
                self.player.fly_speed,
                self.player.walk_speed,
            ),
    {
        Packet::S39PlayerAbilities {
            flags: AbilityFlags::from_game_mode(self.player.game_mode),
            flying_speed: self.player.fly_speed,
            walking_speed: self.player.walk_speed,
        }
    }

    /// Sets the player's game mode and tells the client and all players.
    fn change_game_mode(&mut self, game_mode: GameMode, actions: &mut Vec<Action>)
        ensures
            spec_session_kept(*old(self), *final(self)),
            spec_player_tuned(old(self).player, final(self).player),
            final(self).player.game_mode == game_mode,
            final(self).player.fly_speed == old(self).player.fly_speed,
            final(self).player.walk_speed == old(self).player.walk_speed,
            spec_actions(final(actions)@) == spec_actions(old(actions)@) + seq![
                ActionView::Send(
                    PacketView::S2BChangeGameState {
                        reason: GameStateReason::ChangeGameMode,
                        value: spec_game_mode_float(game_mode),
                    },
                ),
                ActionView::Send(
                    spec_abilities(game_mode, old(self).player.fly_speed, old(self).player.walk_speed),
                ),
                ActionView::Broadcast(
                    PacketView::S38PlayerListItem {
                        uuid: old(self).player.uuid,
                        action: PlayerListItemActionView::UpdateGameMode { game_mode },
                    },
                ),
            ],
    {
        self.player.game_mode = game_mode;
        emit(
            actions,
            Action::Send(
                Packet::S2BChangeGameState {
                    reason: GameStateReason::ChangeGameMode,
                    value: game_mode_float(game_mode),
                },
            ),
        );
        let abilities = self.abilities_packet();
        emit(actions, Action::Send(abilities));
        emit(
            actions,
            Action::Broadcast(
                Packet::S38PlayerListItem {
                    uuid: self.player.uuid,
                    action: PlayerListItemAction::UpdateGameMode { game_mode },
                },
            ),
        );
        assert(spec_actions(actions@) =~= spec_actions(old(actions)@) + seq![
            ActionView::Send(
                PacketView::S2BChangeGameState {
                    reason: GameStateReason::ChangeGameMode,
                    value: spec_game_mode_float(game_mode),
                },
            ),
            ActionView::Send(
                spec_abilities(game_mode, old(self).player.fly_speed, old(self).player.walk_speed),
            ),
            ActionView::Broadcast(
                PacketView::S38PlayerListItem {
                    uuid: old(self).player.uuid,
                    action: PlayerListItemActionView::UpdateGameMode { game_mode },
                },
            ),
        ]);
    }

    /// Carries out a command line and gives the line to reply with: the
    /// command's own reply, or the error line.
    fn exec_command(&mut self, line: &str, speed: Option<&SpeedArg>, actions: &mut Vec<Action>) -> (reply:
        String)
        ensures
            ({
                let effect = spec_command_effect(
                    old(self).player,
                    spec_split(spec_command_text(line@), ' '),
                    spec_speed_view(speed),
                );
                &&& spec_session_kept(*old(self), *final(self))
                &&& spec_player_tuned(old(self).player, final(self).player)
                &&& final(self).player.game_mode == effect.game_mode
                &&& final(self).player.fly_speed == effect.fly_speed
                &&& final(self).player.walk_speed == effect.walk_speed
                &&& spec_actions(final(actions)@) == spec_actions(old(actions)@) + effect.emitted
                &&& reply@ == effect.reply
            }),
    {
        let command = Command::parse(line);
        let name = command.name();
        let ghost before = spec_actions(actions@);
        assert(before + Seq::<ActionView>::empty() =~= before);
        if str_eq(name, "help") {
            return help_text();
        }
        if str_eq(name, "gm") {
            let mode = match command.arg(0) {
                Ok(n) => GameMode::from_u8(n),
                Err(message) => {
                    return join(String::from_str("\u{a7}cError: "), message.as_str());
                },
            };
            return match mode {
                Some(mode) => {
                    self.change_game_mode(mode, actions);
                    join(String::from_str("Game mode changed to "), game_mode_name(mode))
                },
                None => join(String::from_str("\u{a7}cError: "), invalid_arg_message(1).as_str()),
            };
        }
        let fly = str_eq(name, "flyspeed");
        if fly || str_eq(name, "walkspeed") {
            if command.arg_count() < 1 {
                return join(String::from_str("\u{a7}cError: "), missing_arg_message(1).as_str());
            }
            return match speed {
                None => join(String::from_str("\u{a7}cError: "), invalid_arg_message(1).as_str()),
                Some(speed) => {
                    if fly {
                        self.player.fly_speed = speed.bits;
                    } else {
                        self.player.walk_speed = speed.bits;
                    }
                    let abilities = self.abilities_packet();
                    emit(actions, Action::Send(abilities));
                    assert(spec_actions(actions@) =~= before + seq![ActionView::Send(abilities@)]);
                    if fly {
                        join(String::from_str("Flying speed changed to "), speed.text.as_str())
                    } else {
                        join(String::from_str("Walking speed changed to "), speed.text.as_str())
                    }
                },
            };
        }
        let unknown = join(String::from_str(name), ": Unknown command.");
        join(String::from_str("\u{a7}cError: "), unknown.as_str())
    }

    /// Carries out a command line: see `spec_commanded`.
    pub fn handle_command(&mut self, line: &str, speed: Option<&SpeedArg>) -> (actions: Vec<Action>)
        ensures
            spec_commanded(
                *old(self),
                line@,
                spec_speed_view(speed),
                *final(self),
                spec_actions(actions@),
            ),
    {
        let mut actions = no_actions();
        let reply = self.exec_command(line, speed, &mut actions);
        let ghost emitted = spec_actions(actions@);
        emit(&mut actions, Action::Send(chat_packet(1, reply.as_str())));
        assert(Seq::<ActionView>::empty() + emitted =~= emitted);
        actions
    }

    /// Answers a chat message: see `spec_chatted`.
    pub fn on_chat(&mut self, message: &str, speed: Option<&SpeedArg>) -> (actions: Vec<Action>)
        ensures
            spec_chatted(
                *old(self),
                message@,
                spec_speed_view(speed),
                *final(self),
                spec_actions(actions@),
            ),
    {
        let chars = str_chars(message);
        if chars.len() > 0 && chars[0] == '/' {
            self.handle_command(message, speed)
        } else {
            let line = join(
                join(
                    join(String::from_str("\u{a7}b"), self.player.username.as_str()),
                    "\u{a7}r: ",
                ),
                message,
            );
            let mut actions = no_actions();
            emit(&mut actions, Action::Broadcast(chat_packet(0, line.as_str())));
            assert(spec_actions(actions@) =~= seq![
                ActionView::Broadcast(
                    spec_chat_packet(0, spec_chat_line(self.player.username@, message@)),
                ),
            ]);
            actions
        }
    }
}

} // verus!
