//! Game modes and item stacks.

use crate::mc::buffer::{spec_parsed, ReadBuffer, WriteBuffer};
use crate::mc::wire::{
    spec_be_bytes, spec_i16_bits, spec_take_i16, spec_take_u16, spec_take_u8, DecodeError,
};
use crate::world::{BlockPos, ChunkPos};
use rand::Rng;
use vstd::prelude::*;

verus! {

/// The number of slots of a player's inventory.
pub const INVENTORY_SLOTS: usize = 45;

/// The first slot of the hotbar.
pub const HOTBAR_START: i16 = 36;

/// The bits of the 32-bit float 0.05: the speed at which a player flies.
pub const DEFAULT_FLY_SPEED: u32 = 0x3D4C_CCCD;

/// The bits of the 32-bit float 0.1: the speed at which a player walks.
pub const DEFAULT_WALK_SPEED: u32 = 0x3DCC_CCCD;

/// The rules a player plays under.
#[derive(Clone, Copy, Debug, PartialEq, Eq, Structural)]
pub enum GameMode {
    Survival,
    Creative,
    Adventure,
    Spectator,
}

impl GameMode {
    /// The number that stands for a game mode on the wire and in commands.
    pub open spec fn spec_to_u8(self) -> u8 {
        match self {
            GameMode::Survival => 0,
            GameMode::Creative => 1,
            GameMode::Adventure => 2,
            GameMode::Spectator => 3,
        }
    }

    /// The game mode that a number stands for, if any.
    pub open spec fn spec_from_u8(val: u8) -> Option<GameMode> {
        if val == 0 {
            Some(GameMode::Survival)
        } else if val == 1 {
            Some(GameMode::Creative)
        } else if val == 2 {
            Some(GameMode::Adventure)
        } else if val == 3 {
            Some(GameMode::Spectator)
        } else {
            None
        }
    }

    pub fn to_u8(self) -> (val: u8)
        ensures
            val == self.spec_to_u8(),
            Self::spec_from_u8(val) == Some(self),
    {
        match self {
            GameMode::Survival => 0,
            GameMode::Creative => 1,
            GameMode::Adventure => 2,
            GameMode::Spectator => 3,
        }
    }

    /// The game mode that `val` stands for; `None` above 3.
    pub fn from_u8(val: u8) -> (mode: Option<GameMode>)
        ensures
            mode == Self::spec_from_u8(val),
    {
        match val {
            0 => Some(GameMode::Survival),
            1 => Some(GameMode::Creative),
            2 => Some(GameMode::Adventure),
            3 => Some(GameMode::Spectator),
            _ => None,
        }
    }
}

/// A stack of items in an inventory slot. The id -1 marks an empty slot.
#[derive(Clone, Copy, Debug, PartialEq, Eq, Structural)]
pub struct ItemStack {
    pub id: i16,
    pub count: u8,
    pub damage: u16,
}

impl Default for ItemStack {
    fn default() -> (stack: ItemStack)
        ensures
            stack == ItemStack::spec_empty(),
    {
        ItemStack { id: -1, count: 0, damage: 0 }
    }
}

impl ItemStack {
    /// The empty slot.
    pub open spec fn spec_empty() -> ItemStack {
        ItemStack { id: -1i16, count: 0, damage: 0 }
    }

    /// Whether the stack is written to the wire as it stands: an empty slot
    /// carries neither count nor damage.
    pub open spec fn canonical(self) -> bool {
        self.id == -1 ==> self.count == 0 && self.damage == 0
    }

    /// The wire form of a slot: the id; for a slot that is not empty, the
    /// count, the damage and a zero byte that says that no tag data follows.
    pub open spec fn spec_bytes(self) -> Seq<u8> {
        if self.id == -1 {
            spec_be_bytes(spec_i16_bits(self.id), 2)
        } else {
            spec_be_bytes(spec_i16_bits(self.id), 2) + seq![self.count] + spec_be_bytes(
                self.damage as nat,
                2,
            ) + seq![0u8]
        }
    }

    /// Takes a slot off the front of `bytes`. The byte after the damage is
    /// taken and not looked at.
    pub open spec fn spec_take(bytes: Seq<u8>) -> Result<(ItemStack, Seq<u8>), DecodeError> {
        match spec_take_i16(bytes) {
            Err(e) => Err(e),
            Ok((id, r1)) => if id == -1 {
                Ok((ItemStack { id, count: 0, damage: 0 }, r1))
            } else {
                match spec_take_u8(r1) {
                    Err(e) => Err(e),
                    Ok((count, r2)) => match spec_take_u16(r2) {
                        Err(e) => Err(e),
                        Ok((damage, r3)) => match spec_take_u8(r3) {
                            Err(e) => Err(e),
                            Ok((_, r4)) => Ok((ItemStack { id, count, damage }, r4)),
                        },
                    },
                }
            },
        }
    }

    /// Reads a slot from the front of `buf`.
    pub fn read(buf: &mut ReadBuffer) -> (outcome: Result<ItemStack, DecodeError>)
        ensures
            spec_parsed(outcome, Self::spec_take(old(buf)@), final(buf)@),
    {
        let id: i16 = buf.get_i16()?;
        if id == -1 {
            return Ok(ItemStack { id, count: 0, damage: 0 });
        }
        let count: u8 = buf.get_u8()?;
        let damage: u16 = buf.get_u16()?;
        let _tag: u8 = buf.get_u8()?;
        Ok(ItemStack { id, count, damage })
    }

    /// Appends the slot's wire form to `buf`.
    pub fn write(&self, buf: &mut WriteBuffer)
        ensures
            final(buf)@ == old(buf)@ + self.spec_bytes(),
    {
        buf.write_i16(self.id);
        if self.id != -1 {
            buf.write_u8(self.count);
            buf.write_u16(self.damage);
            buf.write_u8(0);
            assert(buf@ =~= old(buf)@ + self.spec_bytes());
        }
    }

    pub fn is_present(&self) -> (present: bool)
        ensures
            present == (self.id != -1),
    {
        self.id != -1
    }

    /// Whether the id is in the range that block ids share with item ids.
    pub fn is_block(&self) -> (block: bool)
        ensures
            block == (self.id <= 255),
    {
        self.id <= 255
    }
}

/// A point in space, as the bits of three 64-bit floats.
#[derive(Clone, Copy, Debug, PartialEq, Eq, Structural)]
pub struct Vec3d {
    pub x: u64,
    pub y: u64,
    pub z: u64,
}

/// A pair of angles, as the bits of two 32-bit floats.
#[derive(Clone, Copy, Debug, PartialEq, Eq, Structural)]
pub struct Vec2f {
    pub x: u32,
    pub y: u32,
}

/// Something that has a place in the world.
pub trait Entity {
    spec fn spec_id(&self) -> i32;

    spec fn spec_pos(&self) -> Vec3d;

    spec fn spec_rot(&self) -> Vec2f;

    fn id(&self) -> (id: i32)
        ensures
            id == self.spec_id(),
    ;

    fn pos(&self) -> (pos: Vec3d)
        ensures
            pos == self.spec_pos(),
    ;

    /// The block that the entity stands in: its position cut to integers.
    fn block_pos(&self) -> (pos: BlockPos)
        ensures
            pos == BlockPos::spec_from_pos(self.spec_pos().x, self.spec_pos().y, self.spec_pos().z),
    ;

    /// The chunk that the entity stands in.
    fn chunk_pos(&self) -> (pos: ChunkPos)
        ensures
            pos == ChunkPos::spec_from_block_pos(
                BlockPos::spec_from_pos(self.spec_pos().x, self.spec_pos().y, self.spec_pos().z).x,
                BlockPos::spec_from_pos(self.spec_pos().x, self.spec_pos().y, self.spec_pos().z).z,
            ),
    ;

    fn set_pos(&mut self, pos: Vec3d)
        ensures
            final(self).spec_pos() == pos,
            final(self).spec_id() == old(self).spec_id(),
            final(self).spec_rot() == old(self).spec_rot(),
    ;

    fn rot(&self) -> (rot: Vec2f)
        ensures
            rot == self.spec_rot(),
    ;

    fn set_rot(&mut self, rot: Vec2f)
        ensures
            final(self).spec_rot() == rot,
            final(self).spec_id() == old(self).spec_id(),
            final(self).spec_pos() == old(self).spec_pos(),
    ;
}

/// `rand::thread_rng().gen()`: 128 bits of chance.
#[verifier::external_body]
fn random_u128() -> (bits: u128) {
    rand::thread_rng().gen()
}

/// What the server knows of one player.
#[derive(Clone, Debug, PartialEq)]
pub struct Player {
    pub eid: i32,
    pub uuid: u128,
    /// Empty until the player has logged in.
    pub username: String,
    pub position: Vec3d,
    pub rotation: Vec2f,
    pub game_mode: GameMode,
    /// The bits of a 32-bit float.
    pub fly_speed: u32,
    /// The bits of a 32-bit float.
    pub walk_speed: u32,
    pub inventory: Vec<ItemStack>,
    pub selected_slot: i16,
}

impl Player {
    /// Whether the inventory has all its slots.
    pub open spec fn wf(&self) -> bool {
        self.inventory@.len() == INVENTORY_SLOTS
    }

    /// Whether the player starts out as `new` leaves it: at the origin, not
    /// logged in, with an empty inventory and the default speeds.
    pub open spec fn spec_fresh(&self, eid: i32, game_mode: GameMode) -> bool {
        &&& self.eid == eid
        &&& self.username@ == Seq::<char>::empty()
        &&& self.position == (Vec3d { x: 0, y: 0, z: 0 })
        &&& self.rotation == (Vec2f { x: 0, y: 0 })
        &&& self.game_mode == game_mode
        &&& self.fly_speed == DEFAULT_FLY_SPEED
        &&& self.walk_speed == DEFAULT_WALK_SPEED
        &&& self.inventory@ == Seq::new(INVENTORY_SLOTS as nat, |i: int| ItemStack::spec_empty())
        &&& self.selected_slot == 0
    }

    /// A player that has not logged in yet, under the given UUID.
    pub fn with_uuid(eid: i32, game_mode: GameMode, uuid: u128) -> (player: Player)
        ensures
            player.spec_fresh(eid, game_mode),
            player.uuid == uuid,
            player.wf(),
    {
        let mut inventory: Vec<ItemStack> = Vec::new();
        let mut i: usize = 0;
        while i < INVENTORY_SLOTS
            invariant
                i <= INVENTORY_SLOTS,
                inventory@ == Seq::new(i as nat, |j: int| ItemStack::spec_empty()),
            decreases INVENTORY_SLOTS - i,
        {
            inventory.push(ItemStack::default());
            assert(inventory@ =~= Seq::new((i + 1) as nat, |j: int| ItemStack::spec_empty()));
            i = i + 1;
        }
        Player {
            eid,
            uuid,
            username: String::new(),
            position: Vec3d { x: 0, y: 0, z: 0 },
            rotation: Vec2f { x: 0, y: 0 },
            game_mode,
            fly_speed: DEFAULT_FLY_SPEED,
            walk_speed: DEFAULT_WALK_SPEED,
            inventory,
            selected_slot: 0,
        }
    }

    /// A player that has not logged in yet, under a UUID drawn by chance.
    pub fn new(eid: i32, game_mode: GameMode) -> (player: Player)
        ensures
            player.spec_fresh(eid, game_mode),
            player.wf(),
    {
        Player::with_uuid(eid, game_mode, random_u128())
    }

    pub fn is_logged_in(&self) -> (logged_in: bool)
        ensures
            logged_in == (self.username@.len() > 0),
    {
        !self.username.as_str().is_empty()
    }

    /// The stack in slot `id`.
    pub fn item_stack_at(&mut self, id: i16) -> (stack: &mut ItemStack)
        requires
            0 <= id < old(self).inventory@.len(),
        ensures
            *stack == old(self).inventory@[id as int],
            final(self).inventory@ == old(self).inventory@.update(id as int, *final(stack)),
            final(self).eid == old(self).eid,
            final(self).uuid == old(self).uuid,
            final(self).username == old(self).username,
            final(self).position == old(self).position,
            final(self).rotation == old(self).rotation,
            final(self).game_mode == old(self).game_mode,
            final(self).fly_speed == old(self).fly_speed,
            final(self).walk_speed == old(self).walk_speed,
            final(self).selected_slot == old(self).selected_slot,
    {
        &mut self.inventory[id as usize]
    }

    /// The stack in slot `id` of the hotbar.
    pub fn item_stack_in_hotbar(&mut self, id: i16) -> (stack: &mut ItemStack)
        requires
            0 <= HOTBAR_START + id < old(self).inventory@.len(),
            HOTBAR_START + id <= i16::MAX,
        ensures
            *stack == old(self).inventory@[HOTBAR_START + id],
            final(self).inventory@ == old(self).inventory@.update(
                HOTBAR_START + id,
                *final(stack),
            ),
    {
        self.item_stack_at(HOTBAR_START + id)
    }

    /// The stack in the selected slot of the hotbar, if the selection names
    /// a slot of the inventory.
    pub fn held_item(&self) -> (stack: Option<ItemStack>)
        ensures
            stack == self.spec_held_item(),
    {
        let slot: i32 = HOTBAR_START as i32 + self.selected_slot as i32;
        if 0 <= slot && (slot as usize) < self.inventory.len() {
            Some(self.inventory[slot as usize])
        } else {
            None
        }
    }

    /// The stack in the selected slot of the hotbar.
    pub open spec fn spec_held_item(&self) -> Option<ItemStack> {
        let slot = HOTBAR_START + self.selected_slot;
        if 0 <= slot < self.inventory@.len() {
            Some(self.inventory@[slot])
        } else {
            None
        }
    }

    /// The inventory with `item` in slot `slot_id`; unchanged where there is
    /// no such slot.
    pub open spec fn spec_with_item(inventory: Seq<ItemStack>, slot_id: i16, item: ItemStack) -> Seq<
        ItemStack,
    > {
        if 0 <= slot_id < inventory.len() {
            inventory.update(slot_id as int, item)
        } else {
            inventory
        }
    }

    /// Puts `item` into slot `slot_id`, if there is such a slot.
    pub fn set_item(&mut self, slot_id: i16, item: ItemStack)
        ensures
            final(self).inventory@ == Self::spec_with_item(old(self).inventory@, slot_id, item),
            final(self).eid == old(self).eid,
            final(self).uuid == old(self).uuid,
            final(self).username == old(self).username,
            final(self).position == old(self).position,
            final(self).rotation == old(self).rotation,
            final(self).game_mode == old(self).game_mode,
            final(self).fly_speed == old(self).fly_speed,
            final(self).walk_speed == old(self).walk_speed,
            final(self).selected_slot == old(self).selected_slot,
    {
        if 0 <= slot_id && (slot_id as usize) < self.inventory.len() {
            self.inventory[slot_id as usize] = item;
        }
    }
}

impl Entity for Player {
    open spec fn spec_id(&self) -> i32 {
        self.eid
    }

    open spec fn spec_pos(&self) -> Vec3d {
        self.position
    }

    open spec fn spec_rot(&self) -> Vec2f {
        self.rotation
    }

    fn id(&self) -> (id: i32) {
        self.eid
    }

    fn pos(&self) -> (pos: Vec3d) {
        self.position
    }

    fn block_pos(&self) -> (pos: BlockPos) {
        BlockPos::from_pos(self.position.x, self.position.y, self.position.z)
    }

    fn chunk_pos(&self) -> (pos: ChunkPos) {
        let block_pos = self.block_pos();
        ChunkPos::from_block_pos(block_pos.x, block_pos.z)
    }

    fn set_pos(&mut self, pos: Vec3d) {
        self.position = pos;
    }

    fn rot(&self) -> (rot: Vec2f) {
        self.rotation
    }

    fn set_rot(&mut self, rot: Vec2f) {
        self.rotation = rot;
    }
}

} // verus!
