//! The three known client layouts, their constant offset tables, and the
//! resolver that classifies a loaded module as one of them.

use vstd::prelude::*;
use crate::foreign::{le32, ForeignMemory};

verus! {

/// One of the three known in-memory arrangements of the host client.
#[derive(Clone, Copy, Debug, PartialEq, Eq, Structural)]
pub enum Layout {
    V037,
    V037R3,
    V03Dl,
}

/// Failure of layout classification. No offset is safe to use after this:
/// everything downstream assumes one of the three known layouts.
#[derive(Clone, Copy, Debug, PartialEq, Eq, Structural)]
pub enum LayoutError {
    UnsupportedLayout,
}

/// Offset, from the module base, of the word that identifies the build.
pub const SIGNATURE_OFF: usize = 0x120;

/// Signature word of the first supported layout.
pub const SIG_V037: u32 = 0x5542_F47A;

/// Signature word of the second supported layout.
pub const SIG_V037R3: u32 = 0x59C3_0C75;

/// Signature word of the third supported layout.
pub const SIG_V03DL: u32 = 0x5A6A_3130;

/// Byte offsets of every logical field this subsystem reads, for one
/// layout. Pure data: the facade selects a table by [`Layout`] and never
/// branches per field.
///
/// Offsets named `*_off` without a prefix are relative to the module base;
/// the doc comment of each prefixed group names the foreign object it is
/// relative to.
#[derive(Clone, Copy, Debug, PartialEq, Eq, Structural)]
pub struct LayoutTable {
    /// Module base: pointer to the current session object.
    pub netgame_off: usize,
    /// Module base: pointer to the local player object.
    pub local_off: usize,
    /// Module base: pointer to the player pool object.
    pub pool_off: usize,
    /// Session object: raw IPv4 address (4 bytes) then port (2 bytes).
    pub endpoint_off: usize,
    /// Pool object: table of `SLOT_CAPACITY` pointers, 4 bytes each.
    pub slots_off: usize,
    /// Player-info object: pointer to the remote-player data.
    pub info_remote_off: usize,
    /// Player-info object: NUL-terminated name, at most `NAME_CAPACITY` bytes.
    pub info_name_off: usize,
    /// Player-info object: 16-bit identifier.
    pub info_id_off: usize,
    /// Player-info object: streaming (visibility) flag byte.
    pub info_stream_off: usize,
    /// Player-info object: 64-bit appearance hash.
    pub info_hash_off: usize,
    /// Player-info object: pointer to the engine ped object.
    pub info_ped_off: usize,
    /// Remote or local player object: position vector.
    pub pos_off: usize,
    /// Remote or local player object: velocity vector.
    pub vel_off: usize,
    /// Remote player object: head-direction vector.
    pub head_off: usize,
    /// Remote or local player object: pointer to the transform.
    pub matrix_off: usize,
    /// Remote player object: 16-bit identifier.
    pub remote_id_off: usize,
    /// Local player object: NUL-terminated name, at most `NAME_CAPACITY` bytes.
    pub local_name_off: usize,
    /// Local player object: 32-bit identifier.
    pub local_id_off: usize,
    /// Local player object: pointer to the ped wrapper.
    pub local_ped_off: usize,
    /// Ped wrapper object: pointer to the engine ped object.
    pub ped_game_off: usize,
}

/// Number of entries in the host's player slot table.
pub const SLOT_CAPACITY: usize = 1000;

/// Longest stored player name, in bytes.
pub const NAME_CAPACITY: usize = 24;

/// Engine ped object: pointer to the transform. The engine side is shared
/// by all three layouts, so this one is not in the per-layout table.
pub const PED_MATRIX_OFF: usize = 20;

/// The offset table of the given layout.
pub open spec fn spec_table(l: Layout) -> LayoutTable {
    match l {
        Layout::V037 => LayoutTable {
            netgame_off: 0x21A0F8,
            local_off: 0x21A0E8,
            pool_off: 0x21A0F0,
            endpoint_off: 0x20,
            slots_off: 0x04,
            info_remote_off: 0x00,
            info_name_off: 0x0C,
            info_id_off: 0x04,
            info_stream_off: 0x06,
            info_hash_off: 0x28,
            info_ped_off: 0x08,
            pos_off: 0x40,
            vel_off: 0x4C,
            head_off: 0x58,
            matrix_off: 0x14,
            remote_id_off: 0x24,
            local_name_off: 0x1C,
            local_id_off: 0x38,
            local_ped_off: 0x00,
            ped_game_off: 0x00,
        },
        Layout::V037R3 => LayoutTable {
            netgame_off: 0x26E8DC,
            local_off: 0x26E8CC,
            pool_off: 0x26E8D4,
            endpoint_off: 0x2C,
            slots_off: 0x04,
            info_remote_off: 0x04,
            info_name_off: 0x10,
            info_id_off: 0x08,
            info_stream_off: 0x0A,
            info_hash_off: 0x2C,
            info_ped_off: 0x0C,
            pos_off: 0x44,
            vel_off: 0x50,
            head_off: 0x5C,
            matrix_off: 0x18,
            remote_id_off: 0x28,
            local_name_off: 0x20,
            local_id_off: 0x3C,
            local_ped_off: 0x00,
            ped_game_off: 0x00,
        },
        Layout::V03Dl => LayoutTable {
            netgame_off: 0x2ACA24,
            local_off: 0x2ACA14,
            pool_off: 0x2ACA1C,
            endpoint_off: 0x30,
            slots_off: 0x08,
            info_remote_off: 0x04,
            info_name_off: 0x14,
            info_id_off: 0x08,
            info_stream_off: 0x0A,
            info_hash_off: 0x30,
            info_ped_off: 0x10,
            pos_off: 0x48,
            vel_off: 0x54,
            head_off: 0x60,
            matrix_off: 0x1C,
            remote_id_off: 0x2C,
            local_name_off: 0x24,
            local_id_off: 0x40,
            local_ped_off: 0x04,
            ped_game_off: 0x04,
        },
    }
}

/// The offset table of the given layout.
pub fn table_for(l: Layout) -> (t: LayoutTable)
    ensures
        t == spec_table(l),
{
    match l {
        Layout::V037 => LayoutTable {
            netgame_off: 0x21A0F8,
            local_off: 0x21A0E8,
            pool_off: 0x21A0F0,
            endpoint_off: 0x20,
            slots_off: 0x04,
            info_remote_off: 0x00,
            info_name_off: 0x0C,
            info_id_off: 0x04,
            info_stream_off: 0x06,
            info_hash_off: 0x28,
            info_ped_off: 0x08,
            pos_off: 0x40,
            vel_off: 0x4C,
            head_off: 0x58,
            matrix_off: 0x14,
            remote_id_off: 0x24,
            local_name_off: 0x1C,
            local_id_off: 0x38,
            local_ped_off: 0x00,
            ped_game_off: 0x00,
        },
        Layout::V037R3 => LayoutTable {
            netgame_off: 0x26E8DC,
            local_off: 0x26E8CC,
            pool_off: 0x26E8D4,
            endpoint_off: 0x2C,
            slots_off: 0x04,
            info_remote_off: 0x04,
            info_name_off: 0x10,
            info_id_off: 0x08,
            info_stream_off: 0x0A,
            info_hash_off: 0x2C,
            info_ped_off: 0x0C,
            pos_off: 0x44,
            vel_off: 0x50,
            head_off: 0x5C,
            matrix_off: 0x18,
            remote_id_off: 0x28,
            local_name_off: 0x20,
            local_id_off: 0x3C,
            local_ped_off: 0x00,
            ped_game_off: 0x00,
        },
        Layout::V03Dl => LayoutTable {
            netgame_off: 0x2ACA24,
            local_off: 0x2ACA14,
            pool_off: 0x2ACA1C,
            endpoint_off: 0x30,
            slots_off: 0x08,
            info_remote_off: 0x04,
            info_name_off: 0x14,
            info_id_off: 0x08,
            info_stream_off: 0x0A,
            info_hash_off: 0x30,
            info_ped_off: 0x10,
            pos_off: 0x48,
            vel_off: 0x54,
            head_off: 0x60,
            matrix_off: 0x1C,
            remote_id_off: 0x2C,
            local_name_off: 0x24,
            local_id_off: 0x40,
            local_ped_off: 0x04,
            ped_game_off: 0x04,
        },
    }
}

/// The layout whose signature word is `sig`, if any.
pub open spec fn spec_classify(sig: u32) -> Option<Layout> {
    if sig == SIG_V037 {
        Some(Layout::V037)
    } else if sig == SIG_V037R3 {
        Some(Layout::V037R3)
    } else if sig == SIG_V03DL {
        Some(Layout::V03Dl)
    } else {
        None
    }
}

/// Whether the module snapshot carries the signature word of layout `l`.
pub open spec fn spec_resolves_to(mem: ForeignMemory, l: Layout) -> bool {
    &&& mem.base + SIGNATURE_OFF <= usize::MAX
    &&& mem.readable(mem.base + SIGNATURE_OFF, 4)
    &&& spec_classify(le32(mem.bytes_at(mem.base + SIGNATURE_OFF, 4)) as u32) == Some(l)
}

/// Classify the loaded module by the signature word at its fixed signature
/// region. Fails with [`LayoutError::UnsupportedLayout`] when the word
/// matches none of the three known layouts or the region is not present;
/// nothing downstream may run after that.
pub fn resolve(mem: &ForeignMemory) -> (r: Result<Layout, LayoutError>)
    requires
        mem.wf(),
    ensures
        match r {
            Ok(l) => spec_resolves_to(*mem, l),
            Err(e) => e == LayoutError::UnsupportedLayout
                && forall|l: Layout| !spec_resolves_to(*mem, l),
        },
{
    if mem.base > usize::MAX - SIGNATURE_OFF {
        return Err(LayoutError::UnsupportedLayout);
    }
    match mem.read_u32(mem.base + SIGNATURE_OFF) {
        Some(sig) => {
            if sig == SIG_V037 {
                Ok(Layout::V037)
            } else if sig == SIG_V037R3 {
                Ok(Layout::V037R3)
            } else if sig == SIG_V03DL {
                Ok(Layout::V03Dl)
            } else {
                Err(LayoutError::UnsupportedLayout)
            }
        },
        None => Err(LayoutError::UnsupportedLayout),
    }
}

} // verus!
