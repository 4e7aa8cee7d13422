//! The player save-data format (`save.data`): a header, the inventory slots,
//! and optionally the player's position and view angles.
//!
//! Layout (little-endian): `PINV`, version byte, slot count (u16), a flag byte
//! (from version 2 on), then per slot item id (u16) and count (u16), then the
//! position (three f32) when flag bit 0 is set, then yaw and pitch (two f32)
//! when flag bit 1 is set (version 3). Floats are carried as their IEEE-754 bit
//! patterns (`f32::to_bits`), which is exactly what the file stores.
use vstd::prelude::*;
use crate::slots::{InventorySlot, empty_slot, min16};
use crate::inventory::PlayerInventory;

verus! {

pub const PLAYER_INVENTORY_SAVE_VERSION_LEGACY: u8 = 1;
pub const PLAYER_INVENTORY_SAVE_VERSION_POSITION: u8 = 2;
pub const PLAYER_INVENTORY_SAVE_VERSION: u8 = 3;
pub const PLAYER_SAVE_FLAG_HAS_POSITION: u8 = 1;
pub const PLAYER_SAVE_FLAG_HAS_YAW_PITCH: u8 = 2;

/// The player's position as the bit patterns of its three `f32` coordinates.
#[derive(Clone, Copy, PartialEq, Eq, Debug, Structural)]
pub struct PositionBits {
    pub x: u32,
    pub y: u32,
    pub z: u32,
}

/// The player's view angles as the bit patterns of two `f32`.
#[derive(Clone, Copy, PartialEq, Eq, Debug, Structural)]
pub struct YawPitchBits {
    pub yaw: u32,
    pub pitch: u32,
}

/// What a save file holds.
pub struct PlayerPersistedData {
    pub inventory: PlayerInventory,
    pub position: Option<PositionBits>,
    pub yaw_pitch: Option<YawPitchBits>,
}

/// Why a save file was refused.
#[derive(Clone, Copy, PartialEq, Eq, Debug, Structural)]
pub enum DecodeError {
    FileTooSmall,
    MagicMismatch,
    UnsupportedVersion,
    TruncatedPayload,
    TruncatedPlayerPosition,
    TruncatedYawPitch,
}

impl DecodeError {
    /// The message the game reports for this error.
    pub fn message(&self) -> (r: &'static str)
        ensures
            r@ == match *self {
                DecodeError::FileTooSmall => "file too small"@,
                DecodeError::MagicMismatch => "magic mismatch"@,
                DecodeError::UnsupportedVersion => "unsupported version"@,
                DecodeError::TruncatedPayload => "truncated payload"@,
                DecodeError::TruncatedPlayerPosition => "truncated player position"@,
                DecodeError::TruncatedYawPitch => "truncated yaw/pitch"@,
            },
    {
        match self {
            DecodeError::FileTooSmall => "file too small",
            DecodeError::MagicMismatch => "magic mismatch",
            DecodeError::UnsupportedVersion => "unsupported version",
            DecodeError::TruncatedPayload => "truncated payload",
            DecodeError::TruncatedPlayerPosition => "truncated player position",
            DecodeError::TruncatedYawPitch => "truncated yaw/pitch",
        }
    }
}

// ---------------------------------------------------------------------------
// Byte-level specification
// ---------------------------------------------------------------------------

pub open spec fn magic() -> Seq<u8> {
    seq![0x50u8, 0x49u8, 0x4Eu8, 0x56u8]
}

pub open spec fn le16(v: u16) -> Seq<u8> {
    seq![(v % 256) as u8, (v / 256) as u8]
}

pub open spec fn le32(v: u32) -> Seq<u8> {
    seq![(v % 256) as u8, ((v / 256) % 256) as u8, ((v / 65536) % 256) as u8, (v / 16777216) as u8]
}

pub open spec fn u16_at(b: Seq<u8>, i: int) -> u16 {
    (b[i] + b[i + 1] * 256) as u16
}

pub open spec fn u32_at(b: Seq<u8>, i: int) -> u32 {
    (b[i] + b[i + 1] * 256 + b[i + 2] * 65536 + b[i + 3] * 16777216) as u32
}

pub open spec fn encode_slots(s: Seq<InventorySlot>) -> Seq<u8>
    decreases s.len(),
{
    if s.len() == 0 {
        Seq::empty()
    } else {
        encode_slots(s.drop_last()) + le16(s.last().item_id) + le16(s.last().count)
    }
}

pub open spec fn save_flags(position: Option<PositionBits>, yaw_pitch: Option<YawPitchBits>) -> u8 {
    ((if position is Some {
        1int
    } else {
        0int
    }) + (if yaw_pitch is Some {
        2int
    } else {
        0int
    })) as u8
}

pub open spec fn position_bytes(position: Option<PositionBits>) -> Seq<u8> {
    match position {
        Some(p) => le32(p.x) + le32(p.y) + le32(p.z),
        None => Seq::empty(),
    }
}

pub open spec fn yaw_pitch_bytes(yaw_pitch: Option<YawPitchBits>) -> Seq<u8> {
    match yaw_pitch {
        Some(a) => le32(a.yaw) + le32(a.pitch),
        None => Seq::empty(),
    }
}

/// The bytes written for an inventory, a position and view angles.
pub open spec fn encoded_blob(
    slots: Seq<InventorySlot>,
    position: Option<PositionBits>,
    yaw_pitch: Option<YawPitchBits>,
) -> Seq<u8> {
    magic() + seq![3u8] + le16(slots.len() as u16) + seq![save_flags(position, yaw_pitch)]
        + encode_slots(slots) + position_bytes(position) + yaw_pitch_bytes(yaw_pitch)
}

pub open spec fn header_len(version: u8) -> int {
    if version == 3 || version == 2 {
        8
    } else {
        7
    }
}

/// A saved slot as loaded: nothing when id or count is zero, otherwise the
/// count capped at `stack_max`.
pub open spec fn loaded_slot(item_id: u16, count: u16, stack_max: u16) -> InventorySlot {
    if item_id == 0 || count == 0 {
        empty_slot()
    } else {
        InventorySlot { item_id, count: min16(count, stack_max) }
    }
}

pub open spec fn min_nat(a: nat, b: nat) -> nat {
    if a < b {
        a
    } else {
        b
    }
}

pub open spec fn decoded_slots(b: Seq<u8>, capacity: nat, stack_max: u16) -> Seq<InventorySlot> {
    let copy = min_nat(u16_at(b, 5) as nat, capacity);
    let h = header_len(b[4]);
    Seq::new(
        capacity,
        |k: int|
            if k < copy {
                loaded_slot(u16_at(b, h + 4 * k), u16_at(b, h + 4 * k + 2), stack_max)
            } else {
                empty_slot()
            },
    )
}

/// Loaded save data: the inventory slots, the position, the view angles.
pub type LoadedView = (Seq<InventorySlot>, Option<PositionBits>, Option<YawPitchBits>);

/// What loading the bytes `b` gives, for an inventory of `capacity` slots whose
/// stacks hold at most `stack_max`.
pub open spec fn decode_spec(b: Seq<u8>, capacity: nat, stack_max: u16) -> Result<LoadedView, DecodeError> {
    if b.len() < 7 {
        Err(DecodeError::FileTooSmall)
    } else if b.subrange(0, 4) != magic() {
        Err(DecodeError::MagicMismatch)
    } else if b[4] != 3 && b[4] != 2 && b[4] != 1 {
        Err(DecodeError::UnsupportedVersion)
    } else {
        let v = b[4];
        let h = header_len(v);
        let sc = u16_at(b, 5) as int;
        if b.len() < h + 4 * sc {
            Err(DecodeError::TruncatedPayload)
        } else {
            let slots = decoded_slots(b, capacity, stack_max);
            let offset = h + 4 * min_nat(sc as nat, capacity);
            if v == 1 {
                Ok((slots, None, None))
            } else {
                let flags = b[7];
                let has_pos = flags % 2 == 1;
                if has_pos && b.len() < offset + 12 {
                    Err(DecodeError::TruncatedPlayerPosition)
                } else {
                    let pos = if has_pos {
                        Some(
                            PositionBits {
                                x: u32_at(b, offset),
                                y: u32_at(b, offset + 4),
                                z: u32_at(b, offset + 8),
                            },
                        )
                    } else {
                        None
                    };
                    let off2 = if has_pos {
                        offset + 12
                    } else {
                        offset
                    };
                    let has_yp = v == 3 && (flags / 2) % 2 == 1;
                    if has_yp && b.len() < off2 + 8 {
                        Err(DecodeError::TruncatedYawPitch)
                    } else {
                        let yp = if has_yp {
                            Some(YawPitchBits { yaw: u32_at(b, off2), pitch: u32_at(b, off2 + 4) })
                        } else {
                            None
                        };
                        Ok((slots, pos, yp))
                    }
                }
            }
        }
    }
}

// ---------------------------------------------------------------------------
// Encoding
// ---------------------------------------------------------------------------

fn push_le16(out: &mut Vec<u8>, v: u16)
    ensures
        final(out)@ == old(out)@ + le16(v),
{
    out.push((v % 256) as u8);
    out.push((v / 256) as u8);
    assert(final(out)@ =~= old(out)@ + le16(v));
}

fn push_le32(out: &mut Vec<u8>, v: u32)
    ensures
        final(out)@ == old(out)@ + le32(v),
{
    out.push((v % 256) as u8);
    out.push(((v / 256) % 256) as u8);
    out.push(((v / 65536) % 256) as u8);
    out.push((v / 16777216) as u8);
    assert(final(out)@ =~= old(out)@ + le32(v));
}

/// The save-file bytes for an inventory, a position and view angles.
pub fn encode_inventory_blob(
    inventory: &PlayerInventory,
    position: Option<PositionBits>,
    yaw_pitch: Option<YawPitchBits>,
) -> (r: Vec<u8>)
    requires
        inventory.slots@.len() <= u16::MAX,
    ensures
        r@ == encoded_blob(inventory.slots@, position, yaw_pitch),
{
    let mut out: Vec<u8> = Vec::new();
    out.push(0x50u8);
    out.push(0x49u8);
    out.push(0x4Eu8);
    out.push(0x56u8);
    out.push(PLAYER_INVENTORY_SAVE_VERSION);
    push_le16(&mut out, inventory.slots.len() as u16);
    let mut flags: u8 = 0;
    if position.is_some() {
        flags = flags + PLAYER_SAVE_FLAG_HAS_POSITION;
    }
    if yaw_pitch.is_some() {
        flags = flags + PLAYER_SAVE_FLAG_HAS_YAW_PITCH;
    }
    out.push(flags);
    let ghost head = out@;
    assert(head =~= magic() + seq![3u8] + le16(inventory.slots@.len() as u16) + seq![
        save_flags(position, yaw_pitch),
    ]);
    let mut i: usize = 0;
    while i < inventory.slots.len()
        invariant
            i <= inventory.slots@.len(),
            out@ == head + encode_slots(inventory.slots@.subrange(0, i as int)),
        decreases inventory.slots.len() - i,
    {
        let slot = inventory.slots[i];
        push_le16(&mut out, slot.item_id);
        push_le16(&mut out, slot.count);
        proof {
            let s = inventory.slots@.subrange(0, i + 1);
            assert(s.drop_last() =~= inventory.slots@.subrange(0, i as int));
            assert(s.last() == slot);
            assert(out@ =~= head + encode_slots(s));
        }
        i = i + 1;
    }
    assert(inventory.slots@.subrange(0, inventory.slots@.len() as int) =~= inventory.slots@);
    let ghost body = out@;
    match position {
        Some(p) => {
            push_le32(&mut out, p.x);
            push_le32(&mut out, p.y);
            push_le32(&mut out, p.z);
            assert(out@ =~= body + position_bytes(position));
        },
        None => {
            assert(out@ =~= body + position_bytes(position));
        },
    }
    let ghost body2 = out@;
    match yaw_pitch {
        Some(a) => {
            push_le32(&mut out, a.yaw);
            push_le32(&mut out, a.pitch);
            assert(out@ =~= body2 + yaw_pitch_bytes(yaw_pitch));
        },
        None => {
            assert(out@ =~= body2 + yaw_pitch_bytes(yaw_pitch));
        },
    }
    out
}

// ---------------------------------------------------------------------------
// Decoding
// ---------------------------------------------------------------------------

fn read_u16(b: &[u8], i: usize) -> (r: u16)
    requires
        i + 1 < b@.len(),
    ensures
        r == u16_at(b@, i as int),
{
    let lo = b[i] as u16;
    let hi = b[i + 1] as u16;
    lo + hi * 256
}

fn read_u32(b: &[u8], i: usize) -> (r: u32)
    requires
        i + 3 < b@.len(),
    ensures
        r == u32_at(b@, i as int),
{
    let b0 = b[i] as u32;
    let b1 = b[i + 1] as u32;
    let b2 = b[i + 2] as u32;
    let b3 = b[i + 3] as u32;
    b0 + b1 * 256 + b2 * 65536 + b3 * 16777216
}

/// Loads save data for an inventory of `slot_capacity` slots whose stacks hold
/// at most `stack_max`.
pub fn decode_inventory_blob(blob: &[u8], slot_capacity: usize, stack_max: u16) -> (r: Result<
    PlayerPersistedData,
    DecodeError,
>)
    ensures
        match decode_spec(blob@, slot_capacity as nat, stack_max) {
            Ok(v) => r matches Ok(d) && d.inventory.slots@ == v.0 && d.position == v.1
                && d.yaw_pitch == v.2,
            Err(e) => r == Err::<PlayerPersistedData, DecodeError>(e),
        },
{
    if blob.len() < 7 {
        return Err(DecodeError::FileTooSmall);
    }
    if !(blob[0] == 0x50u8 && blob[1] == 0x49u8 && blob[2] == 0x4Eu8 && blob[3] == 0x56u8) {
        proof {
            if blob@.subrange(0, 4) == magic() {
                assert(blob@.subrange(0, 4)[0] == blob@[0]);
                assert(blob@.subrange(0, 4)[1] == blob@[1]);
                assert(blob@.subrange(0, 4)[2] == blob@[2]);
                assert(blob@.subrange(0, 4)[3] == blob@[3]);
            }
        }
        return Err(DecodeError::MagicMismatch);
    }
    assert(blob@.subrange(0, 4) =~= magic());
    let version = blob[4];
    if version != PLAYER_INVENTORY_SAVE_VERSION && version != PLAYER_INVENTORY_SAVE_VERSION_POSITION
        && version != PLAYER_INVENTORY_SAVE_VERSION_LEGACY {
        return Err(DecodeError::UnsupportedVersion);
    }
    let slot_count = read_u16(blob, 5) as usize;
    let header: usize = if version == PLAYER_INVENTORY_SAVE_VERSION || version
        == PLAYER_INVENTORY_SAVE_VERSION_POSITION {
        8
    } else {
        7
    };
    let expected_len: usize = header + slot_count * 4;
    if blob.len() < expected_len {
        return Err(DecodeError::TruncatedPayload);
    }
    let copy_count: usize = if slot_count < slot_capacity {
        slot_count
    } else {
        slot_capacity
    };
    let ghost expected = decoded_slots(blob@, slot_capacity as nat, stack_max);
    let mut slots: Vec<InventorySlot> = Vec::new();
    let mut index: usize = 0;
    while index < slot_capacity
        invariant
            index <= slot_capacity,
            copy_count as nat == min_nat(slot_count as nat, slot_capacity as nat),
            slot_count == u16_at(blob@, 5),
            header as int == header_len(blob@[4]),
            header + slot_count * 4 <= blob@.len(),
            expected == decoded_slots(blob@, slot_capacity as nat, stack_max),
            slots@ =~= expected.subrange(0, index as int),
        decreases slot_capacity - index,
    {
        if index < copy_count {
            let offset: usize = header + index * 4;
            let item_id = read_u16(blob, offset);
            let count = read_u16(blob, offset + 2);
            if item_id == 0 || count == 0 {
                slots.push(InventorySlot::empty());
            } else {
                let capped: u16 = if count < stack_max {
                    count
                } else {
                    stack_max
                };
                slots.push(InventorySlot { item_id, count: capped });
            }
        } else {
            slots.push(InventorySlot::empty());
        }
        index = index + 1;
    }
    let inventory = PlayerInventory { slots };
    let mut offset: usize = header + copy_count * 4;
    if version == PLAYER_INVENTORY_SAVE_VERSION_LEGACY {
        return Ok(PlayerPersistedData { inventory, position: None, yaw_pitch: None });
    }
    let flags = blob[7];
    let mut position: Option<PositionBits> = None;
    if flags % 2 == 1 {
        if blob.len() < offset + 12 {
            return Err(DecodeError::TruncatedPlayerPosition);
        }
        let x = read_u32(blob, offset);
        let y = read_u32(blob, offset + 4);
        let z = read_u32(blob, offset + 8);
        position = Some(PositionBits { x, y, z });
        offset = offset + 12;
    }
    let mut yaw_pitch: Option<YawPitchBits> = None;
    if version == PLAYER_INVENTORY_SAVE_VERSION && (flags / 2) % 2 == 1 {
        if blob.len() < offset + 8 {
            return Err(DecodeError::TruncatedYawPitch);
        }
        let yaw = read_u32(blob, offset);
        let pitch = read_u32(blob, offset + 4);
        yaw_pitch = Some(YawPitchBits { yaw, pitch });
    }
    Ok(PlayerPersistedData { inventory, position, yaw_pitch })
}

// ---------------------------------------------------------------------------
// Round trip
// ---------------------------------------------------------------------------

/// A slot as it comes back from a save: nothing when empty, otherwise the count
/// capped at `stack_max`.
pub open spec fn normalized(s: InventorySlot, stack_max: u16) -> InventorySlot {
    loaded_slot(s.item_id, s.count, stack_max)
}

proof fn lemma_le16(v: u16)
    ensures
        le16(v).len() == 2,
        (le16(v)[0] + le16(v)[1] * 256) as u16 == v,
{
}

proof fn lemma_le32(v: u32)
    ensures
        le32(v).len() == 4,
        (le32(v)[0] + le32(v)[1] * 256 + le32(v)[2] * 65536 + le32(v)[3] * 16777216) as u32 == v,
{
    let a = v % 256;
    let q1 = v / 256;
    let b = q1 % 256;
    let q2 = q1 / 256;
    let c = q2 % 256;
    let d = q2 / 256;
    assert(v / 65536 == q2);
    assert(v / 16777216 == d);
    assert(v == a + 256 * q1);
    assert(q1 == b + 256 * q2);
    assert(q2 == c + 256 * d);
}

proof fn lemma_encode_slots(s: Seq<InventorySlot>)
    ensures
        encode_slots(s).len() == 4 * s.len(),
        forall|k: int|
            0 <= k < s.len() ==> u16_at(encode_slots(s), 4 * k) == (#[trigger] s[k]).item_id
                && u16_at(encode_slots(s), 4 * k + 2) == s[k].count,
    decreases s.len(),
{
    if s.len() > 0 {
        let p = s.drop_last();
        lemma_encode_slots(p);
        lemma_le16(s.last().item_id);
        lemma_le16(s.last().count);
        let e = encode_slots(s);
        let ep = encode_slots(p);
        assert forall|k: int| 0 <= k < s.len() implies u16_at(e, 4 * k) == (#[trigger] s[k]).item_id
            && u16_at(e, 4 * k + 2) == s[k].count by {
            if k < s.len() - 1 {
                assert(s[k] == p[k]);
                assert(e[4 * k] == ep[4 * k]);
                assert(e[4 * k + 1] == ep[4 * k + 1]);
                assert(e[4 * k + 2] == ep[4 * k + 2]);
                assert(e[4 * k + 3] == ep[4 * k + 3]);
            } else {
                assert(e[4 * k] == le16(s.last().item_id)[0]);
                assert(e[4 * k + 1] == le16(s.last().item_id)[1]);
                assert(e[4 * k + 2] == le16(s.last().count)[0]);
                assert(e[4 * k + 3] == le16(s.last().count)[1]);
            }
        }
    }
}

/// Loading what was saved gives back the inventory (each slot normalized: empty
/// slots cleared, stacks capped at `stack_max`), the position and the view
/// angles, for an inventory of the size it was saved with.
pub proof fn lemma_save_then_load(
    slots: Seq<InventorySlot>,
    position: Option<PositionBits>,
    yaw_pitch: Option<YawPitchBits>,
    stack_max: u16,
)
    requires
        slots.len() <= u16::MAX,
    ensures
        decode_spec(encoded_blob(slots, position, yaw_pitch), slots.len(), stack_max) == Ok::<
            LoadedView,
            DecodeError,
        >((slots.map_values(|s: InventorySlot| normalized(s, stack_max)), position, yaw_pitch)),
{
    let b = encoded_blob(slots, position, yaw_pitch);
    let n = slots.len();
    let es = encode_slots(slots);
    lemma_encode_slots(slots);
    lemma_le16(n as u16);
    let head = magic() + seq![3u8] + le16(n as u16) + seq![save_flags(position, yaw_pitch)];
    assert(head.len() == 8);
    assert(b =~= head + es + position_bytes(position) + yaw_pitch_bytes(yaw_pitch));
    assert(b.subrange(0, 4) =~= magic());
    assert(b[4] == 3u8);
    assert(b[5] == le16(n as u16)[0]);
    assert(b[6] == le16(n as u16)[1]);
    assert(u16_at(b, 5) == n as u16);
    assert(b[7] == save_flags(position, yaw_pitch));
    let ds = decoded_slots(b, n, stack_max);
    let want = slots.map_values(|s: InventorySlot| normalized(s, stack_max));
    assert forall|k: int| 0 <= k < n implies ds[k] == want[k] by {
        assert(b[8 + 4 * k] == es[4 * k]);
        assert(b[8 + 4 * k + 1] == es[4 * k + 1]);
        assert(b[8 + 4 * k + 2] == es[4 * k + 2]);
        assert(b[8 + 4 * k + 3] == es[4 * k + 3]);
        assert(u16_at(b, 8 + 4 * k) == slots[k].item_id);
        assert(u16_at(b, 8 + 4 * k + 2) == slots[k].count);
    }
    assert(ds =~= want);
    let offset: int = 8 + 4 * (n as int);
    match position {
        Some(p) => {
            lemma_le32(p.x);
            lemma_le32(p.y);
            lemma_le32(p.z);
            assert(b[offset] == le32(p.x)[0]);
            assert(b[offset + 1] == le32(p.x)[1]);
            assert(b[offset + 2] == le32(p.x)[2]);
            assert(b[offset + 3] == le32(p.x)[3]);
            assert(b[offset + 4] == le32(p.y)[0]);
            assert(b[offset + 5] == le32(p.y)[1]);
            assert(b[offset + 6] == le32(p.y)[2]);
            assert(b[offset + 7] == le32(p.y)[3]);
            assert(b[offset + 8] == le32(p.z)[0]);
            assert(b[offset + 9] == le32(p.z)[1]);
            assert(b[offset + 10] == le32(p.z)[2]);
            assert(b[offset + 11] == le32(p.z)[3]);
        },
        None => {},
    }
    let off2: int = if position is Some {
        offset + 12
    } else {
        offset
    };
    match yaw_pitch {
        Some(a) => {
            lemma_le32(a.yaw);
            lemma_le32(a.pitch);
            assert(b[off2] == le32(a.yaw)[0]);
            assert(b[off2 + 1] == le32(a.yaw)[1]);
            assert(b[off2 + 2] == le32(a.yaw)[2]);
            assert(b[off2 + 3] == le32(a.yaw)[3]);
            assert(b[off2 + 4] == le32(a.pitch)[0]);
            assert(b[off2 + 5] == le32(a.pitch)[1]);
            assert(b[off2 + 6] == le32(a.pitch)[2]);
            assert(b[off2 + 7] == le32(a.pitch)[3]);
        },
        None => {},
    }
}

/// The file name of the player's save data in a world folder.
pub const PLAYER_INVENTORY_SAVE_FILE_NAME: &'static str = "save.data";

/// Where the player's data is saved: in the world folder, when the game keeps
/// its save data locally (not as a client of another server) and a world is
/// open.
pub fn resolve_inventory_save_path(uses_local_save_data: bool, world_root: Option<&str>) -> (r: Option<String>)
    ensures
        match world_root {
            Some(root) if uses_local_save_data => r matches Some(p) && p@ == crate::text::path_join_seq(
                root@,
                PLAYER_INVENTORY_SAVE_FILE_NAME@,
            ),
            _ => r is None,
        },
{
    if !uses_local_save_data {
        return None;
    }
    match world_root {
        Some(root) => Some(crate::text::path_join(root, PLAYER_INVENTORY_SAVE_FILE_NAME)),
        None => None,
    }
}

/// An inventory of `slot_capacity` empty slots.
pub fn empty_inventory(slot_capacity: usize) -> (r: PlayerInventory)
    ensures
        r.slots@ == Seq::new(slot_capacity as nat, |_i: int| empty_slot()),
{
    let mut slots: Vec<InventorySlot> = Vec::new();
    let mut i: usize = 0;
    while i < slot_capacity
        invariant
            i <= slot_capacity,
            slots@ == Seq::new(i as nat, |_i: int| empty_slot()),
        decreases slot_capacity - i,
    {
        slots.push(InventorySlot::empty());
        assert(slots@ =~= Seq::new((i + 1) as nat, |_i: int| empty_slot()));
        i = i + 1;
    }
    PlayerInventory { slots }
}

/// The save target of the open world, and what was saved there last.
pub struct ActiveInventorySavePath {
    pub path: Option<String>,
    pub last_saved_position: Option<PositionBits>,
    pub last_saved_yaw_pitch: Option<YawPitchBits>,
}

/// How reading the save file went.
pub enum SaveFileRead {
    /// There is no file yet.
    Missing,
    Bytes(Vec<u8>),
    /// The file could not be read.
    Failed,
}

/// What entering a world did with the save data.
#[derive(Clone, Copy, PartialEq, Eq, Debug, Structural)]
pub enum PlayerDataLoad {
    /// No local save target (a client of another server, or no world).
    NoPath,
    /// No save file yet: the player starts empty.
    Fresh,
    Loaded,
    /// The file could not be read: the player starts empty.
    ReadFailed,
    /// The file was refused: the player starts empty.
    Invalid(DecodeError),
}

/// The outcome of entering a world, from whether there is a save target and
/// what was read there.
pub open spec fn load_result(has_path: bool, read: SaveFileRead, capacity: nat, stack_max: u16) -> PlayerDataLoad {
    if !has_path {
        PlayerDataLoad::NoPath
    } else {
        match read {
            SaveFileRead::Missing => PlayerDataLoad::Fresh,
            SaveFileRead::Failed => PlayerDataLoad::ReadFailed,
            SaveFileRead::Bytes(b) => match decode_spec(b@, capacity, stack_max) {
                Ok(_) => PlayerDataLoad::Loaded,
                Err(e) => PlayerDataLoad::Invalid(e),
            },
        }
    }
}

/// Entering a world: remembers the save target (`resolve_inventory_save_path`)
/// and loads the player from what was read there. A file that loads gives
/// the inventory and the saved position and view angles; a missing,
/// unreadable or refused file gives an empty inventory and no saved
/// position. Without a save target the inventory empties only where the game
/// keeps local save data.
pub fn load_inventory_for_world_entry(
    uses_local_save_data: bool,
    target_path: Option<String>,
    read: SaveFileRead,
    inventory: &mut PlayerInventory,
    active_save_path: &mut ActiveInventorySavePath,
    slot_capacity: usize,
    stack_max: u16,
) -> (r: PlayerDataLoad)
    ensures
        final(active_save_path).path == target_path,
        r == load_result(target_path is Some, read, slot_capacity as nat, stack_max),
        match read {
            SaveFileRead::Bytes(b) => match decode_spec(b@, slot_capacity as nat, stack_max) {
                Ok(v) => target_path is Some ==> final(inventory).slots@ == v.0
                    && final(active_save_path).last_saved_position == v.1
                    && final(active_save_path).last_saved_yaw_pitch == v.2,
                Err(_) => true,
            },
            _ => true,
        },
        r != PlayerDataLoad::Loaded ==> final(active_save_path).last_saved_position is None
            && final(active_save_path).last_saved_yaw_pitch is None,
        r != PlayerDataLoad::Loaded && (r != PlayerDataLoad::NoPath || uses_local_save_data) ==> final(inventory).slots@ == Seq::new(slot_capacity as nat, |_i: int| empty_slot()),
        r == PlayerDataLoad::NoPath && !uses_local_save_data ==> *final(inventory) == *old(inventory),
{
    let has_path = target_path.is_some();
    active_save_path.path = target_path;
    active_save_path.last_saved_position = None;
    active_save_path.last_saved_yaw_pitch = None;
    if !has_path {
        if uses_local_save_data {
            *inventory = empty_inventory(slot_capacity);
        }
        return PlayerDataLoad::NoPath;
    }
    match read {
        SaveFileRead::Missing => {
            *inventory = empty_inventory(slot_capacity);
            PlayerDataLoad::Fresh
        },
        SaveFileRead::Failed => {
            *inventory = empty_inventory(slot_capacity);
            PlayerDataLoad::ReadFailed
        },
        SaveFileRead::Bytes(bytes) => match decode_inventory_blob(bytes.as_slice(), slot_capacity, stack_max) {
            Ok(loaded) => {
                *inventory = loaded.inventory;
                active_save_path.last_saved_position = loaded.position;
                active_save_path.last_saved_yaw_pitch = loaded.yaw_pitch;
                PlayerDataLoad::Loaded
            },
            Err(e) => {
                *inventory = empty_inventory(slot_capacity);
                PlayerDataLoad::Invalid(e)
            },
        },
    }
}

/// Whether the player's data is saved this frame: there is a save target,
/// and the inventory changed, or the periodic save is due and the player
/// moved or turned since the last save.
pub fn should_persist_player_data(
    has_path: bool,
    inventory_changed: bool,
    periodic_due: bool,
    position_changed: bool,
    yaw_pitch_changed: bool,
) -> (r: bool)
    ensures
        r == (has_path && (inventory_changed || (periodic_due && (position_changed
            || yaw_pitch_changed)))),
{
    has_path && (inventory_changed || (periodic_due && (position_changed || yaw_pitch_changed)))
}

/// The position and view angles to save: the player's, or without a player
/// the ones saved last.
pub fn player_data_to_save(
    active_save_path: &ActiveInventorySavePath,
    player: Option<(PositionBits, YawPitchBits)>,
) -> (r: (Option<PositionBits>, Option<YawPitchBits>))
    ensures
        r == match player {
            Some((p, a)) => (Some(p), Some(a)),
            None => (active_save_path.last_saved_position, active_save_path.last_saved_yaw_pitch),
        },
{
    match player {
        Some((p, a)) => (Some(p), Some(a)),
        None => (active_save_path.last_saved_position, active_save_path.last_saved_yaw_pitch),
    }
}

/// After a successful save: remembers what was saved.
pub fn record_saved_player_data(
    active_save_path: &mut ActiveInventorySavePath,
    position: Option<PositionBits>,
    yaw_pitch: Option<YawPitchBits>,
)
    ensures
        final(active_save_path).path == old(active_save_path).path,
        final(active_save_path).last_saved_position == position,
        final(active_save_path).last_saved_yaw_pitch == yaw_pitch,
{
    active_save_path.last_saved_position = position;
    active_save_path.last_saved_yaw_pitch = yaw_pitch;
}

/// Leaving a world or entering a menu: the inventory empties and the save
/// target is forgotten.
pub fn clear_inventory_after_world_exit(
    inventory: &mut PlayerInventory,
    active_save_path: &mut ActiveInventorySavePath,
    slot_capacity: usize,
)
    ensures
        final(inventory).slots@ == Seq::new(slot_capacity as nat, |_i: int| empty_slot()),
        final(active_save_path).path is None,
        final(active_save_path).last_saved_position is None,
        final(active_save_path).last_saved_yaw_pitch is None,
{
    *inventory = empty_inventory(slot_capacity);
    active_save_path.path = None;
    active_save_path.last_saved_position = None;
    active_save_path.last_saved_yaw_pitch = None;
}

/// The name of the temporary file a save is written to before it replaces
/// the save file: the file's name with `.tmp` appended, or `save.data.tmp`
/// where the path has no (readable, non-empty) file name.
pub fn temp_save_file_name(file_name: Option<&str>) -> (r: String)
    ensures
        match file_name {
            Some(n) if n@.len() > 0 => r@ == n@ + ".tmp"@,
            _ => r@ == "save.data.tmp"@,
        },
{
    match file_name {
        Some(n) => {
            if n.unicode_len() > 0 {
                let mut out = crate::text::to_owned_string(n);
                out.append(".tmp");
                return out;
            }
            crate::text::to_owned_string("save.data.tmp")
        },
        None => crate::text::to_owned_string("save.data.tmp"),
    }
}

} // verus!
