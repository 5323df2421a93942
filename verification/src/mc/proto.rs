//! The packet catalog: every message of the protocol with its fields, and
//! the opcode of each.
//!
//! Floating-point fields are held as their IEEE-754 bit patterns, which is
//! what the wire carries. Each type with a string or a list in it has a view
//! that holds the characters or the items themselves.

use crate::model::{GameMode, ItemStack};
use crate::world::{BlockFace, BlockPos, Chunk};
use vstd::prelude::*;

verus! {

/// The phase of a connection. It selects the meaning of an opcode.
#[derive(Clone, Copy, Debug, PartialEq, Eq, Structural)]
pub enum PlayState {
    Handshake,
    Status,
    Login,
    Play,
}

impl PlayState {
    /// The phase that a handshake may ask for: 1 for status, 2 for login.
    pub open spec fn spec_from_i32(value: i32) -> Option<PlayState> {
        if value == 1 {
            Some(PlayState::Status)
        } else if value == 2 {
            Some(PlayState::Login)
        } else {
            None
        }
    }

    /// The number by which a handshake asks for a phase.
    pub open spec fn spec_to_i32(self) -> i32 {
        match self {
            PlayState::Handshake => 0,
            PlayState::Status => 1,
            PlayState::Login => 2,
            PlayState::Play => 3,
        }
    }

    pub fn from_i32(value: i32) -> (state: Option<PlayState>)
        ensures
            state == Self::spec_from_i32(value),
    {
        match value {
            1 => Some(PlayState::Status),
            2 => Some(PlayState::Login),
            _ => None,
        }
    }

    pub fn to_i32(self) -> (value: i32)
        ensures
            value == self.spec_to_i32(),
    {
        match self {
            PlayState::Handshake => 0,
            PlayState::Status => 1,
            PlayState::Login => 2,
            PlayState::Play => 3,
        }
    }
}

/// One typed value of an entity's metadata.
#[derive(Clone, Debug, PartialEq)]
pub enum EntityMetaData {
    Byte(u8),
    Short(i16),
    Int(i32),
    /// The bits of a 32-bit float.
    Float(u32),
    String(String),
    Slot(ItemStack),
    Vec3i { x: i32, y: i32, z: i32 },
    /// The bits of three 32-bit floats.
    Vec3f { x: u32, y: u32, z: u32 },
}

/// `EntityMetaData` with the characters of its string.
pub enum EntityMetaDataView {
    Byte(u8),
    Short(i16),
    Int(i32),
    Float(u32),
    String(Seq<char>),
    Slot(ItemStack),
    Vec3i { x: i32, y: i32, z: i32 },
    Vec3f { x: u32, y: u32, z: u32 },
}

impl View for EntityMetaData {
    type V = EntityMetaDataView;

    open spec fn view(&self) -> EntityMetaDataView {
        match *self {
            EntityMetaData::Byte(v) => EntityMetaDataView::Byte(v),
            EntityMetaData::Short(v) => EntityMetaDataView::Short(v),
            EntityMetaData::Int(v) => EntityMetaDataView::Int(v),
            EntityMetaData::Float(v) => EntityMetaDataView::Float(v),
            EntityMetaData::String(s) => EntityMetaDataView::String(s@),
            EntityMetaData::Slot(stack) => EntityMetaDataView::Slot(stack),
            EntityMetaData::Vec3i { x, y, z } => EntityMetaDataView::Vec3i { x, y, z },
            EntityMetaData::Vec3f { x, y, z } => EntityMetaDataView::Vec3f { x, y, z },
        }
    }
}

impl EntityMetaDataView {
    /// The number that names the value's type on the wire.
    pub open spec fn type_id(self) -> u8 {
        match self {
            EntityMetaDataView::Byte(_) => 0,
            EntityMetaDataView::Short(_) => 1,
            EntityMetaDataView::Int(_) => 2,
            EntityMetaDataView::Float(_) => 3,
            EntityMetaDataView::String(_) => 4,
            EntityMetaDataView::Slot(_) => 5,
            EntityMetaDataView::Vec3i { .. } => 6,
            EntityMetaDataView::Vec3f { .. } => 7,
        }
    }
}

impl EntityMetaData {
    pub fn type_id(&self) -> (id: u8)
        ensures
            id == self@.type_id(),
            id < 8,
    {
        match self {
            EntityMetaData::Byte(_) => 0,
            EntityMetaData::Short(_) => 1,
            EntityMetaData::Int(_) => 2,
            EntityMetaData::Float(_) => 3,
            EntityMetaData::String(_) => 4,
            EntityMetaData::Slot(_) => 5,
            EntityMetaData::Vec3i { .. } => 6,
            EntityMetaData::Vec3f { .. } => 7,
        }
    }
}

/// One entry of an entity's metadata: a value under an index below 32.
#[derive(Clone, Debug, PartialEq)]
pub struct EntityMetaEntry {
    pub index: u8,
    pub data: EntityMetaData,
}

/// `EntityMetaEntry` with the view of its value.
pub struct EntityMetaEntryView {
    pub index: u8,
    pub data: EntityMetaDataView,
}

impl View for EntityMetaEntry {
    type V = EntityMetaEntryView;

    open spec fn view(&self) -> EntityMetaEntryView {
        EntityMetaEntryView { index: self.index, data: self.data@ }
    }
}

impl EntityMetaEntry {
    pub fn new(index: u8, data: EntityMetaData) -> (entry: EntityMetaEntry)
        ensures
            entry == (EntityMetaEntry { index, data }),
    {
        EntityMetaEntry { index, data }
    }
}

/// What a player may do, as the client is told.
#[derive(Clone, Copy, Debug, PartialEq, Eq, Structural)]
pub struct AbilityFlags {
    pub allow_flying: bool,
    pub is_creative: bool,
    pub is_flying: bool,
    pub god_mode: bool,
}

impl AbilityFlags {
    /// The abilities that a game mode grants.
    pub open spec fn spec_from_game_mode(game_mode: GameMode) -> AbilityFlags {
        match game_mode {
            GameMode::Survival => AbilityFlags {
                allow_flying: false,
                is_creative: false,
                is_flying: false,
                god_mode: false,
            },
            GameMode::Creative => AbilityFlags {
                allow_flying: true,
                is_creative: true,
                is_flying: false,
                god_mode: true,
            },
            GameMode::Adventure => AbilityFlags {
                allow_flying: false,
                is_creative: false,
                is_flying: false,
                god_mode: false,
            },
            GameMode::Spectator => AbilityFlags {
                allow_flying: true,
                is_creative: false,
                is_flying: true,
                god_mode: true,
            },
        }
    }

    /// The flags as one byte: god mode is worth 1, flying 2, the permission
    /// to fly 4, creative mode 8.
    pub open spec fn spec_to_byte(self) -> u8 {
        ((if self.god_mode {
            1int
        } else {
            0int
        }) + (if self.is_flying {
            2int
        } else {
            0int
        }) + (if self.allow_flying {
            4int
        } else {
            0int
        }) + (if self.is_creative {
            8int
        } else {
            0int
        })) as u8
    }

    pub fn new(allow_flying: bool, is_creative: bool, is_flying: bool, god_mode: bool) -> (flags:
        AbilityFlags)
        ensures
            flags == (AbilityFlags { allow_flying, is_creative, is_flying, god_mode }),
    {
        AbilityFlags { allow_flying, is_creative, is_flying, god_mode }
    }

    pub fn from_game_mode(game_mode: GameMode) -> (flags: AbilityFlags)
        ensures
            flags == Self::spec_from_game_mode(game_mode),
    {
        match game_mode {
            GameMode::Survival => AbilityFlags::new(false, false, false, false),
            GameMode::Creative => AbilityFlags::new(true, true, false, true),
            GameMode::Adventure => AbilityFlags::new(false, false, false, false),
            GameMode::Spectator => AbilityFlags::new(true, false, true, true),
        }
    }

    pub fn to_byte(&self) -> (byte: u8)
        ensures
            byte == self.spec_to_byte(),
    {
        let mut byte: u8 = 0;
        if self.god_mode {
            byte = byte + 1;
        }
        if self.is_flying {
            byte = byte + 2;
        }
        if self.allow_flying {
            byte = byte + 4;
        }
        if self.is_creative {
            byte = byte + 8;
        }
        byte
    }
}

/// A change to one line of the player list.
#[derive(Clone, Debug, PartialEq)]
pub enum PlayerListItemAction {
    AddPlayer { name: String, game_mode: GameMode, ping: i32, display_name: Option<String> },
    UpdateGameMode { game_mode: GameMode },
    UpdateLatency { ping: i32 },
    UpdateDisplayName { display_name: Option<String> },
    RemovePlayer,
}

/// `PlayerListItemAction` with the characters of its strings.
pub enum PlayerListItemActionView {
    AddPlayer { name: Seq<char>, game_mode: GameMode, ping: i32, display_name: Option<Seq<char>> },
    UpdateGameMode { game_mode: GameMode },
    UpdateLatency { ping: i32 },
    UpdateDisplayName { display_name: Option<Seq<char>> },
    RemovePlayer,
}

/// The characters of a string that may be absent.
pub open spec fn spec_opt_string_view(s: Option<String>) -> Option<Seq<char>> {
    match s {
        Some(s) => Some(s@),
        None => None,
    }
}

impl View for PlayerListItemAction {
    type V = PlayerListItemActionView;

    open spec fn view(&self) -> PlayerListItemActionView {
        match *self {
            PlayerListItemAction::AddPlayer { name, game_mode, ping, display_name } => {
                PlayerListItemActionView::AddPlayer {
                    name: name@,
                    game_mode,
                    ping,
                    display_name: spec_opt_string_view(display_name),
                }
            },
            PlayerListItemAction::UpdateGameMode {
                game_mode,
            } => PlayerListItemActionView::UpdateGameMode { game_mode },
            PlayerListItemAction::UpdateLatency { ping } => PlayerListItemActionView::UpdateLatency {
                ping,
            },
            PlayerListItemAction::UpdateDisplayName {
                display_name,
            } => PlayerListItemActionView::UpdateDisplayName {
                display_name: spec_opt_string_view(display_name),
            },
            PlayerListItemAction::RemovePlayer => PlayerListItemActionView::RemovePlayer,
        }
    }
}

impl PlayerListItemActionView {
    /// The number that names the action on the wire.
    pub open spec fn id(self) -> i32 {
        match self {
            PlayerListItemActionView::AddPlayer { .. } => 0,
            PlayerListItemActionView::UpdateGameMode { .. } => 1,
            PlayerListItemActionView::UpdateLatency { .. } => 2,
            PlayerListItemActionView::UpdateDisplayName { .. } => 3,
            PlayerListItemActionView::RemovePlayer => 4,
        }
    }
}

impl PlayerListItemAction {
    pub fn id(&self) -> (id: i32)
        ensures
            id == self@.id(),
    {
        match self {
            PlayerListItemAction::AddPlayer { .. } => 0,
            PlayerListItemAction::UpdateGameMode { .. } => 1,
            PlayerListItemAction::UpdateLatency { .. } => 2,
            PlayerListItemAction::UpdateDisplayName { .. } => 3,
            PlayerListItemAction::RemovePlayer => 4,
        }
    }
}

/// What a digging packet reports.
#[derive(Clone, Copy, Debug, PartialEq, Eq, Structural)]
pub enum DiggingStatus {
    StartDigging,
    CancelDigging,
    FinishDigging,
    DropStack,
    DropItem,
    FinishAction,
}

impl DiggingStatus {
    pub open spec fn spec_from_u8(value: u8) -> Option<DiggingStatus> {
        if value == 0 {
            Some(DiggingStatus::StartDigging)
        } else if value == 1 {
            Some(DiggingStatus::CancelDigging)
        } else if value == 2 {
            Some(DiggingStatus::FinishDigging)
        } else if value == 3 {
            Some(DiggingStatus::DropStack)
        } else if value == 4 {
            Some(DiggingStatus::DropItem)
        } else if value == 5 {
            Some(DiggingStatus::FinishAction)
        } else {
            None
        }
    }

    pub open spec fn spec_to_u8(self) -> u8 {
        match self {
            DiggingStatus::StartDigging => 0,
            DiggingStatus::CancelDigging => 1,
            DiggingStatus::FinishDigging => 2,
            DiggingStatus::DropStack => 3,
            DiggingStatus::DropItem => 4,
            DiggingStatus::FinishAction => 5,
        }
    }

    /// The status that `value` stands for; `None` above 5.
    pub fn from_u8(value: u8) -> (status: Option<DiggingStatus>)
        ensures
            status == Self::spec_from_u8(value),
    {
        match value {
            0 => Some(DiggingStatus::StartDigging),
            1 => Some(DiggingStatus::CancelDigging),
            2 => Some(DiggingStatus::FinishDigging),
            3 => Some(DiggingStatus::DropStack),
            4 => Some(DiggingStatus::DropItem),
            5 => Some(DiggingStatus::FinishAction),
            _ => None,
        }
    }

    pub fn to_u8(self) -> (value: u8)
        ensures
            value == self.spec_to_u8(),
            Self::spec_from_u8(value) == Some(self),
    {
        match self {
            DiggingStatus::StartDigging => 0,
            DiggingStatus::CancelDigging => 1,
            DiggingStatus::FinishDigging => 2,
            DiggingStatus::DropStack => 3,
            DiggingStatus::DropItem => 4,
            DiggingStatus::FinishAction => 5,
        }
    }
}

/// Why the client is told of a change of game state.
#[derive(Clone, Copy, Debug, PartialEq, Eq, Structural)]
pub enum GameStateReason {
    InvalidBed,
    EndRaining,
    BeginRaining,
    ChangeGameMode,
    EnterCredits,
    DemoMessage,
    ArrowHitting,
    FadeValue,
    FadeTime,
    MobAppearance,
}

impl GameStateReason {
    /// The number that names the reason on the wire: its place in the list.
    pub open spec fn spec_to_u8(self) -> u8 {
        match self {
            GameStateReason::InvalidBed => 0,
            GameStateReason::EndRaining => 1,
            GameStateReason::BeginRaining => 2,
            GameStateReason::ChangeGameMode => 3,
            GameStateReason::EnterCredits => 4,
            GameStateReason::DemoMessage => 5,
            GameStateReason::ArrowHitting => 6,
            GameStateReason::FadeValue => 7,
            GameStateReason::FadeTime => 8,
            GameStateReason::MobAppearance => 9,
        }
    }

    pub fn to_u8(self) -> (value: u8)
        ensures
            value == self.spec_to_u8(),
    {
        match self {
            GameStateReason::InvalidBed => 0,
            GameStateReason::EndRaining => 1,
            GameStateReason::BeginRaining => 2,
            GameStateReason::ChangeGameMode => 3,
            GameStateReason::EnterCredits => 4,
            GameStateReason::DemoMessage => 5,
            GameStateReason::ArrowHitting => 6,
            GameStateReason::FadeValue => 7,
            GameStateReason::FadeTime => 8,
            GameStateReason::MobAppearance => 9,
        }
    }
}

/// A message of the protocol. Names that start with `C` come from the
/// client, names that start with `S` go to it.
#[derive(Clone, Debug, PartialEq)]
#[allow(inconsistent_fields)]
pub enum Packet {
    C00Handshake { protocol_version: i32, server_address: String, server_port: u16, next_state: PlayState },
    C00StatusRequest,
    C01StatusPing { timestamp: i64 },
    S00StatusResponse { status: String },
    S01StatusPong { timestamp: i64 },
    C00LoginStart { username: String },
    S02LoginSuccess { uuid: String, username: String },
    S03LoginCompression { threshold: i32 },
    C00KeepAlive { id: i32 },
    C01ChatMessage { message: String },
    C03Player { on_ground: bool },
    /// `x`, `y` and `z` are the bits of 64-bit floats.
    C04PlayerPos { x: u64, y: u64, z: u64, on_ground: bool },
    /// `yaw` and `pitch` are the bits of 32-bit floats.
    C05PlayerRot { yaw: u32, pitch: u32, on_ground: bool },
    /// The position as the bits of 64-bit floats, the rotation as the bits
    /// of 32-bit floats.
    C06PlayerPosRot { x: u64, y: u64, z: u64, yaw: u32, pitch: u32, on_ground: bool },
    C07PlayerDigging { status: DiggingStatus, location: BlockPos, face: u8 },
    C08PlayerBlockPlacement { location: BlockPos, face: BlockFace },
    C09HeldItemChange { slot: i16 },
    C0AAnimation,
    C10SetCreativeSlot { slot_id: i16, item: ItemStack },
    S00KeepAlive { timestamp: i32 },
    S01JoinGame {
        entity_id: i32,
        game_mode: GameMode,
        dimension: u8,
        difficulty: u8,
        player_list_size: u8,
        world_type: String,
        reduced_debug_info: bool,
    },
    S02ChatMessage { json_data: String, position: u8 },
    /// The position as the bits of 64-bit floats, the rotation as the bits
    /// of 32-bit floats.
    S08SetPlayerPosition { x: u64, y: u64, z: u64, yaw: u32, pitch: u32, flags: u8 },
    /// `x`, `y` and `z` count thirty-seconds of a block; `pitch` and `yaw`
    /// count 256ths of a full turn.
    S0ESpawnObject { entity_id: i32, kind: u8, x: i32, y: i32, z: i32, pitch: u8, yaw: u8, data: i32 },
    S1CEntityMeta { entity_id: i32, entries: Vec<EntityMetaEntry> },
    /// Tells the client to drop the chunk at (`x`, `z`).
    S21ChunkData { x: i32, z: i32 },
    S23BlockChange { location: BlockPos, block_state: u16 },
    S26MapChunkBulk { skylight: bool, chunks: Vec<Chunk> },
    /// `value` is the bits of a 32-bit float.
    S2BChangeGameState { reason: GameStateReason, value: u32 },
    S38PlayerListItem { uuid: u128, action: PlayerListItemAction },
    /// The speeds are the bits of 32-bit floats.
    S39PlayerAbilities { flags: AbilityFlags, flying_speed: u32, walking_speed: u32 },
}

/// `Packet` with the characters of its strings and the items of its lists.
#[allow(inconsistent_fields)]
pub enum PacketView {
    C00Handshake {
        protocol_version: i32,
        server_address: Seq<char>,
        server_port: u16,
        next_state: PlayState,
    },
    C00StatusRequest,
    C01StatusPing { timestamp: i64 },
    S00StatusResponse { status: Seq<char> },
    S01StatusPong { timestamp: i64 },
    C00LoginStart { username: Seq<char> },
    S02LoginSuccess { uuid: Seq<char>, username: Seq<char> },
    S03LoginCompression { threshold: i32 },
    C00KeepAlive { id: i32 },
    C01ChatMessage { message: Seq<char> },
    C03Player { on_ground: bool },
    C04PlayerPos { x: u64, y: u64, z: u64, on_ground: bool },
    C05PlayerRot { yaw: u32, pitch: u32, on_ground: bool },
    C06PlayerPosRot { x: u64, y: u64, z: u64, yaw: u32, pitch: u32, on_ground: bool },
    C07PlayerDigging { status: DiggingStatus, location: BlockPos, face: u8 },
    C08PlayerBlockPlacement { location: BlockPos, face: BlockFace },
    C09HeldItemChange { slot: i16 },
    C0AAnimation,
    C10SetCreativeSlot { slot_id: i16, item: ItemStack },
    S00KeepAlive { timestamp: i32 },
    S01JoinGame {
        entity_id: i32,
        game_mode: GameMode,
        dimension: u8,
        difficulty: u8,
        player_list_size: u8,
        world_type: Seq<char>,
        reduced_debug_info: bool,
    },
    S02ChatMessage { json_data: Seq<char>, position: u8 },
    S08SetPlayerPosition { x: u64, y: u64, z: u64, yaw: u32, pitch: u32, flags: u8 },
    S0ESpawnObject { entity_id: i32, kind: u8, x: i32, y: i32, z: i32, pitch: u8, yaw: u8, data: i32 },
    S1CEntityMeta { entity_id: i32, entries: Seq<EntityMetaEntryView> },
    S21ChunkData { x: i32, z: i32 },
    S23BlockChange { location: BlockPos, block_state: u16 },
    S26MapChunkBulk { skylight: bool, chunks: Seq<Chunk> },
    S2BChangeGameState { reason: GameStateReason, value: u32 },
    S38PlayerListItem { uuid: u128, action: PlayerListItemActionView },
    S39PlayerAbilities { flags: AbilityFlags, flying_speed: u32, walking_speed: u32 },
}

impl View for Packet {
    type V = PacketView;

    open spec fn view(&self) -> PacketView {
        match *self {
            Packet::C00Handshake {
                protocol_version,
                server_address,
                server_port,
                next_state,
            } => PacketView::C00Handshake {
                protocol_version,
                server_address: server_address@,
                server_port,
                next_state,
            },
            Packet::C00StatusRequest => PacketView::C00StatusRequest,
            Packet::C01StatusPing { timestamp } => PacketView::C01StatusPing { timestamp },
            Packet::S00StatusResponse { status } => PacketView::S00StatusResponse {
                status: status@,
            },
            Packet::S01StatusPong { timestamp } => PacketView::S01StatusPong { timestamp },
            Packet::C00LoginStart { username } => PacketView::C00LoginStart { username: username@ },
            Packet::S02LoginSuccess { uuid, username } => PacketView::S02LoginSuccess {
                uuid: uuid@,
                username: username@,
            },
            Packet::S03LoginCompression { threshold } => PacketView::S03LoginCompression {
                threshold,
            },
            Packet::C00KeepAlive { id } => PacketView::C00KeepAlive { id },
            Packet::C01ChatMessage { message } => PacketView::C01ChatMessage { message: message@ },
            Packet::C03Player { on_ground } => PacketView::C03Player { on_ground },
            Packet::C04PlayerPos { x, y, z, on_ground } => PacketView::C04PlayerPos {
                x,
                y,
                z,
                on_ground,
            },
            Packet::C05PlayerRot { yaw, pitch, on_ground } => PacketView::C05PlayerRot {
                yaw,
                pitch,
                on_ground,
            },
            Packet::C06PlayerPosRot { x, y, z, yaw, pitch, on_ground } => PacketView::C06PlayerPosRot {
                x,
                y,
                z,
                yaw,
                pitch,
                on_ground,
            },
            Packet::C07PlayerDigging { status, location, face } => PacketView::C07PlayerDigging {
                status,
                location,
                face,
            },
            Packet::C08PlayerBlockPlacement {
                location,
                face,
            } => PacketView::C08PlayerBlockPlacement { location, face },
            Packet::C09HeldItemChange { slot } => PacketView::C09HeldItemChange { slot },
            Packet::C0AAnimation => PacketView::C0AAnimation,
            Packet::C10SetCreativeSlot { slot_id, item } => PacketView::C10SetCreativeSlot {
                slot_id,
                item,
            },
            Packet::S00KeepAlive { timestamp } => PacketView::S00KeepAlive { timestamp },
            Packet::S01JoinGame {
                entity_id,
                game_mode,
                dimension,
                difficulty,
                player_list_size,
                world_type,
                reduced_debug_info,
            } => PacketView::S01JoinGame {
                entity_id,
                game_mode,
                dimension,
                difficulty,
                player_list_size,
                world_type: world_type@,
                reduced_debug_info,
            },
            Packet::S02ChatMessage { json_data, position } => PacketView::S02ChatMessage {
                json_data: json_data@,
                position,
            },
            Packet::S08SetPlayerPosition {
                x,
                y,
                z,
                yaw,
                pitch,
                flags,
            } => PacketView::S08SetPlayerPosition { x, y, z, yaw, pitch, flags },
            Packet::S0ESpawnObject {
                entity_id,
                kind,
                x,
                y,
                z,
                pitch,
                yaw,
                data,
            } => PacketView::S0ESpawnObject { entity_id, kind, x, y, z, pitch, yaw, data },
            Packet::S1CEntityMeta { entity_id, entries } => PacketView::S1CEntityMeta {
                entity_id,
                entries: entries@.map_values(|e: EntityMetaEntry| e@),
            },
            Packet::S21ChunkData { x, z } => PacketView::S21ChunkData { x, z },
            Packet::S23BlockChange { location, block_state } => PacketView::S23BlockChange {
                location,
                block_state,
            },
            Packet::S26MapChunkBulk { skylight, chunks } => PacketView::S26MapChunkBulk {
                skylight,
                chunks: chunks@,
            },
            Packet::S2BChangeGameState { reason, value } => PacketView::S2BChangeGameState {
                reason,
                value,
            },
            Packet::S38PlayerListItem { uuid, action } => PacketView::S38PlayerListItem {
                uuid,
                action: action@,
            },
            Packet::S39PlayerAbilities {
                flags,
                flying_speed,
                walking_speed,
            } => PacketView::S39PlayerAbilities { flags, flying_speed, walking_speed },
        }
    }
}

impl PacketView {
    /// The opcode of a packet. It is unique among the packets of one phase
    /// that travel in one direction.
    pub open spec fn id(self) -> i32 {
        match self {
            PacketView::C00Handshake { .. } => 0x00,
            PacketView::C00StatusRequest => 0x00,
            PacketView::C01StatusPing { .. } => 0x01,
            PacketView::S00StatusResponse { .. } => 0x00,
            PacketView::S01StatusPong { .. } => 0x01,
            PacketView::C00LoginStart { .. } => 0x00,
            PacketView::S02LoginSuccess { .. } => 0x02,
            PacketView::S03LoginCompression { .. } => 0x03,
            PacketView::C00KeepAlive { .. } => 0x00,
            PacketView::C01ChatMessage { .. } => 0x01,
            PacketView::C03Player { .. } => 0x03,
            PacketView::C04PlayerPos { .. } => 0x04,
            PacketView::C05PlayerRot { .. } => 0x05,
            PacketView::C06PlayerPosRot { .. } => 0x06,
            PacketView::C07PlayerDigging { .. } => 0x07,
            PacketView::C08PlayerBlockPlacement { .. } => 0x08,
            PacketView::C09HeldItemChange { .. } => 0x09,
            PacketView::C0AAnimation => 0x0A,
            PacketView::C10SetCreativeSlot { .. } => 0x10,
            PacketView::S00KeepAlive { .. } => 0x00,
            PacketView::S01JoinGame { .. } => 0x01,
            PacketView::S02ChatMessage { .. } => 0x02,
            PacketView::S08SetPlayerPosition { .. } => 0x08,
            PacketView::S0ESpawnObject { .. } => 0x0E,
            PacketView::S1CEntityMeta { .. } => 0x1C,
            PacketView::S21ChunkData { .. } => 0x21,
            PacketView::S23BlockChange { .. } => 0x23,
            PacketView::S26MapChunkBulk { .. } => 0x26,
            PacketView::S2BChangeGameState { .. } => 0x2B,
            PacketView::S38PlayerListItem { .. } => 0x38,
            PacketView::S39PlayerAbilities { .. } => 0x39,
        }
    }

    /// Whether the packet travels from the client to the server.
    pub open spec fn serverbound(self) -> bool {
        match self {
            PacketView::C00Handshake { .. } => true,
            PacketView::C00StatusRequest => true,
            PacketView::C01StatusPing { .. } => true,
            PacketView::C00LoginStart { .. } => true,
            PacketView::C00KeepAlive { .. } => true,
            PacketView::C01ChatMessage { .. } => true,
            PacketView::C03Player { .. } => true,
            PacketView::C04PlayerPos { .. } => true,
            PacketView::C05PlayerRot { .. } => true,
            PacketView::C06PlayerPosRot { .. } => true,
            PacketView::C07PlayerDigging { .. } => true,
            PacketView::C08PlayerBlockPlacement { .. } => true,
            PacketView::C09HeldItemChange { .. } => true,
            PacketView::C0AAnimation => true,
            PacketView::C10SetCreativeSlot { .. } => true,
            _ => false,
        }
    }

    /// The phase in which the packet is exchanged.
    pub open spec fn phase(self) -> PlayState {
        match self {
            PacketView::C00Handshake { .. } => PlayState::Handshake,
            PacketView::C00StatusRequest => PlayState::Status,
            PacketView::C01StatusPing { .. } => PlayState::Status,
            PacketView::S00StatusResponse { .. } => PlayState::Status,
            PacketView::S01StatusPong { .. } => PlayState::Status,
            PacketView::C00LoginStart { .. } => PlayState::Login,
            PacketView::S02LoginSuccess { .. } => PlayState::Login,
            PacketView::S03LoginCompression { .. } => PlayState::Login,
            _ => PlayState::Play,
        }
    }
}

impl Packet {
    /// The opcode of the packet.
    pub fn id(&self) -> (id: i32)
        ensures
            id == self@.id(),
            0x00 <= id <= 0x39,
    {
        match self {
            Packet::C00Handshake { .. } => 0x00,
            Packet::C00StatusRequest => 0x00,
            Packet::C01StatusPing { .. } => 0x01,
            Packet::S00StatusResponse { .. } => 0x00,
            Packet::S01StatusPong { .. } => 0x01,
            Packet::C00LoginStart { .. } => 0x00,
            Packet::S02LoginSuccess { .. } => 0x02,
            Packet::S03LoginCompression { .. } => 0x03,
            Packet::C00KeepAlive { .. } => 0x00,
            Packet::C01ChatMessage { .. } => 0x01,
            Packet::C03Player { .. } => 0x03,
            Packet::C04PlayerPos { .. } => 0x04,
            Packet::C05PlayerRot { .. } => 0x05,
            Packet::C06PlayerPosRot { .. } => 0x06,
            Packet::C07PlayerDigging { .. } => 0x07,
            Packet::C08PlayerBlockPlacement { .. } => 0x08,
            Packet::C09HeldItemChange { .. } => 0x09,
            Packet::C0AAnimation => 0x0A,
            Packet::C10SetCreativeSlot { .. } => 0x10,
            Packet::S00KeepAlive { .. } => 0x00,
            Packet::S01JoinGame { .. } => 0x01,
            Packet::S02ChatMessage { .. } => 0x02,
            Packet::S08SetPlayerPosition { .. } => 0x08,
            Packet::S0ESpawnObject { .. } => 0x0E,
            Packet::S1CEntityMeta { .. } => 0x1C,
            Packet::S21ChunkData { .. } => 0x21,
            Packet::S23BlockChange { .. } => 0x23,
            Packet::S26MapChunkBulk { .. } => 0x26,
            Packet::S2BChangeGameState { .. } => 0x2B,
            Packet::S38PlayerListItem { .. } => 0x38,
            Packet::S39PlayerAbilities { .. } => 0x39,
        }
    }
}

} // verus!
