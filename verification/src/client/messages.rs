//! The texts and packets that a session writes.

use crate::config::ServerConfig;
use crate::mc::proto::{Packet, PacketView};
use crate::model::GameMode;
use crate::text::{decimal, join, json_quote, spec_json_quote, spec_signed_decimal, str_chars};
use vstd::prelude::*;
use vstd::string::*;

verus! {

/// The JSON of a chat line: an object with the line as its `text`.
pub open spec fn spec_chat_json(text: Seq<char>) -> Seq<char> {
    "{\"text\":"@ + spec_json_quote(text) + "}"@
}

/// The chat packet that shows `text` at `position`.
pub open spec fn spec_chat_packet(position: u8, text: Seq<char>) -> PacketView {
    PacketView::S02ChatMessage { json_data: spec_chat_json(text), position }
}

/// The chat packet that shows `text` at `position`: 0 for the chat box, 1
/// for a system message.
pub fn chat_packet(position: u8, text: &str) -> (packet: Packet)
    ensures
        packet@ == spec_chat_packet(position, text@),
{
    let head = join(String::from_str("{\"text\":"), json_quote(text).as_str());
    Packet::S02ChatMessage { json_data: join(head, "}"), position }
}

/// The JSON that answers a status request: the server's line, the number
/// of slots and of players, and the protocol.
pub open spec fn spec_status_json(motd: Seq<char>, slots: i32, online: i32) -> Seq<char> {
    "{\"description\":{\"text\":"@ + spec_json_quote(motd) + "},\"players\":{\"max\":"@
        + spec_signed_decimal(slots as int) + ",\"online\":"@ + spec_signed_decimal(online as int)
        + ",\"sample\":[]},\"version\":{\"name\":\"1.8.0\",\"protocol\":47}}"@
}

/// The packet that answers a status request.
pub fn status_response(config: &ServerConfig, online: i32) -> (packet: Packet)
    ensures
        packet@ == (PacketView::S00StatusResponse {
            status: spec_status_json(config.motd@, config.slots, online),
        }),
{
    let a = join(
        String::from_str("{\"description\":{\"text\":"),
        json_quote(config.motd.as_str()).as_str(),
    );
    let b = join(a, "},\"players\":{\"max\":");
    let c = join(b, decimal(config.slots as i64).as_str());
    let d = join(c, ",\"online\":");
    let e = join(d, decimal(online as i64).as_str());
    let status = join(e, ",\"sample\":[]},\"version\":{\"name\":\"1.8.0\",\"protocol\":47}}");
    Packet::S00StatusResponse { status }
}

/// The bits of the 32-bit float that equals a game mode's number.
pub open spec fn spec_game_mode_float(mode: GameMode) -> u32 {
    match mode {
        GameMode::Survival => 0x0000_0000,
        GameMode::Creative => 0x3F80_0000,
        GameMode::Adventure => 0x4000_0000,
        GameMode::Spectator => 0x4040_0000,
    }
}

/// The bits of the 32-bit float that equals a game mode's number.
pub fn game_mode_float(mode: GameMode) -> (bits: u32)
    ensures
        bits == spec_game_mode_float(mode),
{
    match mode {
        GameMode::Survival => 0x0000_0000,
        GameMode::Creative => 0x3F80_0000,
        GameMode::Adventure => 0x4000_0000,
        GameMode::Spectator => 0x4040_0000,
    }
}

/// The name of a game mode.
pub open spec fn spec_game_mode_name(mode: GameMode) -> Seq<char> {
    match mode {
        GameMode::Survival => "Survival"@,
        GameMode::Creative => "Creative"@,
        GameMode::Adventure => "Adventure"@,
        GameMode::Spectator => "Spectator"@,
    }
}

/// The name of a game mode.
pub fn game_mode_name(mode: GameMode) -> (name: &'static str)
    ensures
        name@ == spec_game_mode_name(mode),
{
    match mode {
        GameMode::Survival => "Survival",
        GameMode::Creative => "Creative",
        GameMode::Adventure => "Adventure",
        GameMode::Spectator => "Spectator",
    }
}

/// Whether two strings hold the same characters.
pub fn str_eq(a: &str, b: &str) -> (same: bool)
    ensures
        same == (a@ == b@),
{
    let x = str_chars(a);
    let y = str_chars(b);
    if x.len() != y.len() {
        return false;
    }
    let mut i: usize = 0;
    while i < x.len()
        invariant
            i <= x@.len(),
            x@ == a@,
            y@ == b@,
            x@.len() == y@.len(),
            forall|j: int| 0 <= j < i ==> x@[j] == y@[j],
        decreases x@.len() - i,
    {
        if x[i] != y[i] {
            return false;
        }
        i = i + 1;
    }
    assert(x@ =~= y@);
    true
}

/// The line that announces a player.
pub open spec fn spec_join_line(name: Seq<char>) -> Seq<char> {
    "\u{a7}e"@ + name + " joined the game"@
}

/// The line that shows what a player said.
pub open spec fn spec_chat_line(name: Seq<char>, message: Seq<char>) -> Seq<char> {
    "\u{a7}b"@ + name + "\u{a7}r: "@ + message
}

/// The line that reports an error to a player.
pub open spec fn spec_error_line(message: Seq<char>) -> Seq<char> {
    "\u{a7}cError: "@ + message
}

} // verus!
