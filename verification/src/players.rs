//! Version-erased read-only views of the host's player objects.
//!
//! Every handle carries the resolved layout and the address of the foreign
//! object it observes; an address of 0 is an unresolved handle. Accessors
//! check the governing pointer and the read window before every read and
//! fall back to the documented defaults: `None`, the zero vector, the
//! sentinel identifiers.

use vstd::prelude::*;
use crate::foreign::{le16, le32, le64, ptr_or_null, ForeignMemory};
use crate::layout::{spec_table, table_for, Layout, NAME_CAPACITY, PED_MATRIX_OFF, SLOT_CAPACITY};
use crate::text::{latin1, latin1_string, lemma_take_until_nul, name_with_id_text, opt_text,
    spec_name_with_id, take_until_nul};
use crate::values::{field_vec3_or_zero, matrix_at, read_matrix, vec3_or_zero, Matrix, Vec3};

verus! {

/// A materialized view of one engine ped object: the pointer to its
/// transform, null when unset or unreadable.
#[derive(Clone, Copy, Debug, PartialEq, Eq, Structural)]
pub struct GamePed {
    pub matrix: usize,
}

/// A view of the host's local player object. [`local_player`] hands one
/// out only while the host has such an object; a handle built with
/// `addr == 0` is unresolved and every accessor on it yields its
/// documented default.
#[derive(Clone, Copy, Debug, PartialEq, Eq, Structural)]
pub struct LocalPlayer {
    pub layout: Layout,
    pub addr: usize,
}

/// A view of one entry of the host's player pool. [`find_player`] and
/// the slot walk hand out resolved handles only; a handle built with
/// `addr == 0` is unresolved and every accessor on it yields its
/// documented default (the sentinel identity and hash among them).
#[derive(Clone, Copy, Debug, PartialEq, Eq, Structural)]
pub struct Player {
    pub layout: Layout,
    pub addr: usize,
}

/// A view of the remote-player data behind a [`Player`]. `addr == 0` when
/// that data is absent.
#[derive(Clone, Copy, Debug, PartialEq, Eq, Structural)]
pub struct RemotePlayer {
    pub layout: Layout,
    pub addr: usize,
}

/// A view of the host's player pool object. `addr == 0` before the host
/// has created it.
#[derive(Clone, Copy, Debug, PartialEq, Eq, Structural)]
pub struct PlayerPool {
    pub layout: Layout,
    pub addr: usize,
}

/// The local-player pointer the module stores for layout `l`.
pub open spec fn local_player_ptr(mem: ForeignMemory, l: Layout) -> int {
    ptr_or_null(mem, mem.base + spec_table(l).local_off)
}

/// The pool pointer the module stores for layout `l`.
pub open spec fn pool_ptr(mem: ForeignMemory, l: Layout) -> int {
    ptr_or_null(mem, mem.base + spec_table(l).pool_off)
}

/// The pointer in slot `i` of the pool at `pool`.
pub open spec fn slot_ptr(mem: ForeignMemory, l: Layout, pool: int, i: int) -> int {
    ptr_or_null(mem, pool + spec_table(l).slots_off + 4 * i)
}

/// The identifier stored in a player-info object, if readable.
pub open spec fn player_id_opt(p: Player, mem: ForeignMemory) -> Option<u16> {
    let a = p.addr + spec_table(p.layout).info_id_off;
    if p.addr != 0 && mem.readable(a, 2) {
        Some(le16(mem.bytes_at(a, 2)) as u16)
    } else {
        None
    }
}

/// The name stored in a player-info object, if readable.
pub open spec fn player_name_seq(p: Player, mem: ForeignMemory) -> Option<Seq<char>> {
    let a = p.addr + spec_table(p.layout).info_name_off;
    if p.addr != 0 && mem.readable(a, NAME_CAPACITY as int) {
        Some(latin1(take_until_nul(mem.bytes_at(a, NAME_CAPACITY as int))))
    } else {
        None
    }
}

/// Read the fixed name field `off` bytes into the object at `obj`:
/// everything before the first NUL of the stored bytes.
fn read_name_field(mem: &ForeignMemory, obj: usize, off: usize) -> (r: Option<String>)
    requires
        mem.wf(),
    ensures
        r is Some <==> mem.readable(obj + off, NAME_CAPACITY as int),
        r is Some ==> r->Some_0@ == latin1(
            take_until_nul(mem.bytes_at(obj + off, NAME_CAPACITY as int)),
        ),
{
    let a = match obj.checked_add(off) {
        Some(a) => a,
        None => {
            proof {
                assert(!mem.readable(obj + off, NAME_CAPACITY as int));
            }
            return None;
        },
    };
    if a > usize::MAX - NAME_CAPACITY || !mem.window_readable(a, NAME_CAPACITY) {
        return None;
    }
    let mut v: Vec<u8> = Vec::new();
    let mut i: usize = 0;
    while i < NAME_CAPACITY
        invariant
            mem.wf(),
            i <= NAME_CAPACITY,
            a <= usize::MAX - NAME_CAPACITY,
            a == obj + off,
            v@.len() == i,
            mem.readable(a as int, NAME_CAPACITY as int),
            v@ =~= mem.bytes_at(a as int, i as int),
        decreases NAME_CAPACITY - i,
    {
        match mem.read_u8(a + i) {
            Some(b) => {
                v.push(b);
                proof {
                    assert(v@ =~= mem.bytes_at(a as int, i + 1));
                }
                i += 1;
            },
            None => {
                proof {
                    assert(false);
                }
                return None;
            },
        }
    }
    let ghost w = mem.bytes_at(a as int, NAME_CAPACITY as int);
    let mut j: usize = 0;
    while j < NAME_CAPACITY && v[j] != 0
        invariant
            v@.len() == NAME_CAPACITY,
            j <= NAME_CAPACITY,
            forall|k: int| 0 <= k < j ==> v@[k] != 0,
        decreases NAME_CAPACITY - j,
    {
        j += 1;
    }
    proof {
        lemma_take_until_nul(v@, j as int);
    }
    let s = latin1_string(&v, j);
    proof {
        assert(v@ == w);
        assert(s@ == latin1(take_until_nul(w)));
    }
    Some(s)
}

impl Player {
    /// The streaming (visibility) flag; `false` for an unresolved player
    /// or an unreadable flag.
    pub fn is_in_stream(&self, mem: &ForeignMemory) -> (r: bool)
        requires
            mem.wf(),
        ensures
            r <==> self.addr != 0 && mem.readable(
                self.addr + spec_table(self.layout).info_stream_off,
                1,
            ) && mem.bytes_at(self.addr + spec_table(self.layout).info_stream_off, 1)[0] != 0,
    {
        if self.addr == 0 {
            return false;
        }
        let t = table_for(self.layout);
        match mem.field_u8(self.addr, t.info_stream_off) {
            Some(b) => b != 0,
            None => false,
        }
    }

    /// The appearance hash; the maximum 64-bit value for an unresolved
    /// player or an unreadable field.
    pub fn hash(&self, mem: &ForeignMemory) -> (r: u64)
        requires
            mem.wf(),
        ensures
            self.addr != 0 && mem.readable(self.addr + spec_table(self.layout).info_hash_off, 8)
                ==> r == le64(mem.bytes_at(self.addr + spec_table(self.layout).info_hash_off, 8)),
            !(self.addr != 0 && mem.readable(self.addr + spec_table(self.layout).info_hash_off, 8))
                ==> r == u64::MAX,
    {
        if self.addr == 0 {
            return u64::MAX;
        }
        let t = table_for(self.layout);
        match mem.field_u64(self.addr, t.info_hash_off) {
            Some(h) => h,
            None => u64::MAX,
        }
    }

    /// The stored player name.
    pub fn name(&self, mem: &ForeignMemory) -> (r: Option<String>)
        requires
            mem.wf(),
        ensures
            opt_text(r) == player_name_seq(*self, *mem),
    {
        if self.addr == 0 {
            return None;
        }
        let t = table_for(self.layout);
        read_name_field(mem, self.addr, t.info_name_off)
    }

    /// The display form `"[ID: <id>] <name>"`, with the sentinels `-1`
    /// and `noname` when identifier or name cannot be resolved.
    pub fn name_with_id(&self, mem: &ForeignMemory) -> (r: String)
        requires
            mem.wf(),
        ensures
            r@ == spec_name_with_id(player_id_opt(*self, *mem), player_name_seq(*self, *mem)),
    {
        let id = if self.addr == 0 {
            None
        } else {
            let t = table_for(self.layout);
            mem.field_u16(self.addr, t.info_id_off)
        };
        let name = self.name(mem);
        name_with_id_text(id, name)
    }

    /// The remote-player data of this entry; the handle is unresolved when
    /// this player is, or when the pointer is null or unreadable.
    pub fn remote_player(&self, mem: &ForeignMemory) -> (r: Option<RemotePlayer>)
        requires
            mem.wf(),
        ensures
            r is Some,
            r->Some_0.layout == self.layout,
            self.addr == 0 ==> r->Some_0.addr == 0,
            self.addr != 0 ==> r->Some_0.addr == ptr_or_null(
                *mem,
                self.addr + spec_table(self.layout).info_remote_off,
            ),
    {
        if self.addr == 0 {
            return Some(RemotePlayer { layout: self.layout, addr: 0 });
        }
        let t = table_for(self.layout);
        Some(RemotePlayer { layout: self.layout, addr: mem.field_ptr(self.addr, t.info_remote_off) })
    }

    /// The engine ped object of this player, materialized as the pointer
    /// to its transform; absent when the player or its ped is.
    pub fn gta_ped(&self, mem: &ForeignMemory) -> (r: Option<GamePed>)
        requires
            mem.wf(),
        ensures
            r is Some <==> self.addr != 0 && ptr_or_null(
                *mem,
                self.addr + spec_table(self.layout).info_ped_off,
            ) != 0,
            r is Some ==> r->Some_0.matrix == ptr_or_null(
                *mem,
                ptr_or_null(*mem, self.addr + spec_table(self.layout).info_ped_off)
                    + PED_MATRIX_OFF,
            ),
    {
        if self.addr == 0 {
            return None;
        }
        let t = table_for(self.layout);
        let ped = mem.field_ptr(self.addr, t.info_ped_off);
        if ped == 0 {
            return None;
        }
        Some(GamePed { matrix: mem.field_ptr(ped, PED_MATRIX_OFF) })
    }
}

impl RemotePlayer {
    /// The position vector; zero for an unresolved handle.
    pub fn position(&self, mem: &ForeignMemory) -> (r: Vec3)
        requires
            mem.wf(),
        ensures
            self.addr != 0 ==> r == vec3_or_zero(*mem, self.addr + spec_table(self.layout).pos_off),
            self.addr == 0 ==> r == (Vec3 { x: 0, y: 0, z: 0 }),
    {
        if self.addr == 0 {
            return Vec3::zero();
        }
        let t = table_for(self.layout);
        field_vec3_or_zero(mem, self.addr, t.pos_off)
    }

    /// The velocity vector; zero for an unresolved handle.
    pub fn velocity(&self, mem: &ForeignMemory) -> (r: Vec3)
        requires
            mem.wf(),
        ensures
            self.addr != 0 ==> r == vec3_or_zero(*mem, self.addr + spec_table(self.layout).vel_off),
            self.addr == 0 ==> r == (Vec3 { x: 0, y: 0, z: 0 }),
    {
        if self.addr == 0 {
            return Vec3::zero();
        }
        let t = table_for(self.layout);
        field_vec3_or_zero(mem, self.addr, t.vel_off)
    }

    /// The head-direction vector; zero for an unresolved handle.
    pub fn head_direction(&self, mem: &ForeignMemory) -> (r: Vec3)
        requires
            mem.wf(),
        ensures
            self.addr != 0 ==> r == vec3_or_zero(
                *mem,
                self.addr + spec_table(self.layout).head_off,
            ),
            self.addr == 0 ==> r == (Vec3 { x: 0, y: 0, z: 0 }),
    {
        if self.addr == 0 {
            return Vec3::zero();
        }
        let t = table_for(self.layout);
        field_vec3_or_zero(mem, self.addr, t.head_off)
    }

    /// The transform; absent while the transform pointer is unset.
    pub fn matrix(&self, mem: &ForeignMemory) -> (r: Option<Matrix>)
        requires
            mem.wf(),
        ensures
            ({
                let mp = ptr_or_null(*mem, self.addr + spec_table(self.layout).matrix_off);
                &&& r is Some <==> self.addr != 0 && mp != 0 && mem.readable(mp, 60)
                &&& r is Some ==> r->Some_0 == matrix_at(*mem, mp)
            }),
    {
        if self.addr == 0 {
            return None;
        }
        let t = table_for(self.layout);
        let mp = mem.field_ptr(self.addr, t.matrix_off);
        read_matrix(mem, mp)
    }

    /// The stored identifier; the maximum 16-bit value for an unresolved
    /// handle or an unreadable field.
    pub fn id(&self, mem: &ForeignMemory) -> (r: u16)
        requires
            mem.wf(),
        ensures
            self.addr != 0 && mem.readable(self.addr + spec_table(self.layout).remote_id_off, 2)
                ==> r == le16(mem.bytes_at(self.addr + spec_table(self.layout).remote_id_off, 2)),
            !(self.addr != 0 && mem.readable(
                self.addr + spec_table(self.layout).remote_id_off,
                2,
            )) ==> r == u16::MAX,
    {
        if self.addr == 0 {
            return u16::MAX;
        }
        let t = table_for(self.layout);
        match mem.field_u16(self.addr, t.remote_id_off) {
            Some(v) => v,
            None => u16::MAX,
        }
    }
}

impl LocalPlayer {
    /// The transform; absent while the transform pointer is unset.
    pub fn matrix(&self, mem: &ForeignMemory) -> (r: Option<Matrix>)
        requires
            mem.wf(),
        ensures
            ({
                let mp = ptr_or_null(*mem, self.addr + spec_table(self.layout).matrix_off);
                &&& r is Some <==> self.addr != 0 && mp != 0 && mem.readable(mp, 60)
                &&& r is Some ==> r->Some_0 == matrix_at(*mem, mp)
            }),
    {
        if self.addr == 0 {
            return None;
        }
        let t = table_for(self.layout);
        let mp = mem.field_ptr(self.addr, t.matrix_off);
        read_matrix(mem, mp)
    }

    /// The position vector; zero for an unresolved handle.
    pub fn position(&self, mem: &ForeignMemory) -> (r: Vec3)
        requires
            mem.wf(),
        ensures
            self.addr != 0 ==> r == vec3_or_zero(*mem, self.addr + spec_table(self.layout).pos_off),
            self.addr == 0 ==> r == (Vec3 { x: 0, y: 0, z: 0 }),
    {
        if self.addr == 0 {
            return Vec3::zero();
        }
        let t = table_for(self.layout);
        field_vec3_or_zero(mem, self.addr, t.pos_off)
    }

    /// The velocity vector; zero for an unresolved handle.
    pub fn velocity(&self, mem: &ForeignMemory) -> (r: Vec3)
        requires
            mem.wf(),
        ensures
            self.addr != 0 ==> r == vec3_or_zero(*mem, self.addr + spec_table(self.layout).vel_off),
            self.addr == 0 ==> r == (Vec3 { x: 0, y: 0, z: 0 }),
    {
        if self.addr == 0 {
            return Vec3::zero();
        }
        let t = table_for(self.layout);
        field_vec3_or_zero(mem, self.addr, t.vel_off)
    }

    /// The stored local name.
    pub fn name(&self, mem: &ForeignMemory) -> (r: Option<String>)
        requires
            mem.wf(),
        ensures
            ({
                let a = self.addr + spec_table(self.layout).local_name_off;
                &&& r is Some <==> self.addr != 0 && mem.readable(a, NAME_CAPACITY as int)
                &&& r is Some ==> r->Some_0@ == latin1(
                    take_until_nul(mem.bytes_at(a, NAME_CAPACITY as int)),
                )
            }),
    {
        if self.addr == 0 {
            return None;
        }
        let t = table_for(self.layout);
        read_name_field(mem, self.addr, t.local_name_off)
    }

    /// The stored local identifier; absent for an unresolved handle or an
    /// unreadable field.
    pub fn id(&self, mem: &ForeignMemory) -> (r: Option<i32>)
        requires
            mem.wf(),
        ensures
            ({
                let a = self.addr + spec_table(self.layout).local_id_off;
                &&& r is Some <==> self.addr != 0 && mem.readable(a, 4)
                &&& r is Some ==> r->Some_0 == (le32(mem.bytes_at(a, 4)) as u32) as i32
            }),
    {
        if self.addr == 0 {
            return None;
        }
        let t = table_for(self.layout);
        match mem.field_u32(self.addr, t.local_id_off) {
            Some(v) => Some(v as i32),
            None => None,
        }
    }

    /// The engine ped object behind the local player's ped wrapper, as an
    /// opaque address; null when either link is unset.
    pub fn ped(&self, mem: &ForeignMemory) -> (r: usize)
        requires
            mem.wf(),
        ensures
            ({
                let w = ptr_or_null(*mem, self.addr + spec_table(self.layout).local_ped_off);
                &&& self.addr == 0 ==> r == 0
                &&& self.addr != 0 && w == 0 ==> r == 0
                &&& self.addr != 0 && w != 0 ==> r == ptr_or_null(
                    *mem,
                    w + spec_table(self.layout).ped_game_off,
                )
            }),
    {
        if self.addr == 0 {
            return 0;
        }
        let t = table_for(self.layout);
        let w = mem.field_ptr(self.addr, t.local_ped_off);
        if w == 0 {
            return 0;
        }
        mem.field_ptr(w, t.ped_game_off)
    }
}

/// Resolve the local player view through the active layout's table.
/// Absent before the host has created a local player object.
pub fn local_player(mem: &ForeignMemory, layout: Layout) -> (r: Option<LocalPlayer>)
    requires
        mem.wf(),
    ensures
        r is Some <==> local_player_ptr(*mem, layout) != 0,
        r is Some ==> r->Some_0 == (LocalPlayer {
            layout,
            addr: local_player_ptr(*mem, layout) as usize,
        }),
{
    let t = table_for(layout);
    let addr = mem.field_ptr(mem.base, t.local_off);
    if addr == 0 {
        None
    } else {
        Some(LocalPlayer { layout, addr })
    }
}

/// Resolve the player pool view through the active layout's table.
pub fn player_pool(mem: &ForeignMemory, layout: Layout) -> (r: PlayerPool)
    requires
        mem.wf(),
    ensures
        r.layout == layout,
        r.addr == pool_ptr(*mem, layout),
{
    let t = table_for(layout);
    PlayerPool { layout, addr: mem.field_ptr(mem.base, t.pool_off) }
}

/// The player-info address the pool resolves identifier `id` to: its slot
/// entry, or null when the pool is absent or `id` is out of range.
pub open spec fn find_addr(mem: ForeignMemory, l: Layout, id: int) -> int {
    let p = pool_ptr(mem, l);
    if p != 0 && 0 <= id < SLOT_CAPACITY {
        slot_ptr(mem, l, p, id)
    } else {
        0
    }
}

/// Read the pointer in slot `i` of the pool at `pool`.
fn read_slot(mem: &ForeignMemory, layout: Layout, pool: usize, i: usize) -> (r: usize)
    requires
        mem.wf(),
        i < SLOT_CAPACITY,
    ensures
        r == slot_ptr(*mem, layout, pool as int, i as int),
{
    let t = table_for(layout);
    match t.slots_off.checked_add(4 * i) {
        Some(off) => mem.field_ptr(pool, off),
        None => {
            proof {
                assert(!mem.readable(pool + spec_table(layout).slots_off + 4 * i, 4));
            }
            0
        },
    }
}

/// Look one player up by asking the pool's slot table to resolve the
/// identifier. Absent when the pool is absent, the identifier is out of
/// range, or the slot is empty.
pub fn find_player(mem: &ForeignMemory, layout: Layout, id: i32) -> (r: Option<Player>)
    requires
        mem.wf(),
    ensures
        r is Some <==> find_addr(*mem, layout, id as int) != 0,
        r is Some ==> r->Some_0 == (Player {
            layout,
            addr: find_addr(*mem, layout, id as int) as usize,
        }),
{
    let pool = player_pool(mem, layout);
    if pool.addr == 0 || id < 0 || id >= SLOT_CAPACITY as i32 {
        return None;
    }
    let addr = read_slot(mem, layout, pool.addr, id as usize);
    if addr == 0 {
        None
    } else {
        Some(Player { layout, addr })
    }
}

/// A restartable enumeration of the pool's slot table: a snapshot of the
/// slot pointers, walked in index order, skipping empty slots. Each call
/// of [`players`] takes a fresh snapshot of the current foreign state.
pub struct PlayersIterator {
    pub layout: Layout,
    pub slots: Vec<usize>,
    pub index: usize,
}

impl PlayersIterator {
    /// The walk never leaves the slot table.
    pub open spec fn wf(self) -> bool {
        self.index <= self.slots@.len()
    }
}

/// The first index at or after `from` whose slot is live (non-null), or
/// the table's length when there is none.
pub open spec fn first_live(s: Seq<usize>, from: int) -> int
    recommends
        0 <= from <= s.len(),
    decreases s.len() - from,
        when 0 <= from <= s.len()
{
    if from < 0 || from >= s.len() {
        s.len() as int
    } else if s[from] != 0 {
        from
    } else {
        first_live(s, from + 1)
    }
}

/// A region of empty slots followed by a live one (or by the table's end)
/// pins down the first live index.
proof fn lemma_first_live(s: Seq<usize>, from: int, j: int)
    requires
        0 <= from <= j <= s.len(),
        forall|k: int| from <= k < j ==> s[k] == 0,
        j < s.len() ==> s[j] != 0,
    ensures
        first_live(s, from) == j,
    decreases j - from,
{
    if from < j {
        lemma_first_live(s, from + 1, j);
    }
}

/// The handles a full walk from `from` yields: one per live slot, carrying
/// that slot's pointer, in slot order.
pub open spec fn live_handles(l: Layout, s: Seq<usize>, from: int) -> Seq<Player>
    recommends
        0 <= from <= s.len(),
    decreases s.len() - from,
        when 0 <= from <= s.len()
{
    if from < 0 || from >= s.len() {
        Seq::empty()
    } else if s[from] != 0 {
        seq![Player { layout: l, addr: s[from] }] + live_handles(l, s, from + 1)
    } else {
        live_handles(l, s, from + 1)
    }
}

/// The indices of the live slots at or after `from`, in increasing order.
pub open spec fn live_indices(s: Seq<usize>, from: int) -> Seq<int>
    recommends
        0 <= from <= s.len(),
    decreases s.len() - from,
        when 0 <= from <= s.len()
{
    if from < 0 || from >= s.len() {
        Seq::empty()
    } else if s[from] != 0 {
        seq![from] + live_indices(s, from + 1)
    } else {
        live_indices(s, from + 1)
    }
}

/// Law: walking a slot table with `k` live entries yields exactly `k`
/// handles — one per live index, in increasing index order — and each
/// handle carries exactly its source slot's pointer.
pub proof fn lemma_walk_matches_live_slots(l: Layout, s: Seq<usize>, from: int)
    requires
        0 <= from <= s.len(),
    ensures
        live_handles(l, s, from).len() == live_indices(s, from).len(),
        forall|t: int| 0 <= t < live_indices(s, from).len() ==> {
            let j = #[trigger] live_indices(s, from)[t];
            &&& from <= j < s.len()
            &&& s[j] != 0
            &&& live_handles(l, s, from)[t] == (Player { layout: l, addr: s[j] })
        },
        forall|t1: int, t2: int|
            0 <= t1 < t2 < live_indices(s, from).len() ==> live_indices(s, from)[t1]
                < live_indices(s, from)[t2],
        forall|j: int| from <= j < s.len() && s[j] != 0 ==> live_indices(s, from).contains(j),
    decreases s.len() - from,
{
    if from >= s.len() {
    } else {
        lemma_walk_matches_live_slots(l, s, from + 1);
        let rest = live_indices(s, from + 1);
        if s[from] != 0 {
            assert forall|j: int| from <= j < s.len() && s[j] != 0 implies live_indices(
                s,
                from,
            ).contains(j) by {
                if j == from {
                    assert(live_indices(s, from)[0] == j);
                } else {
                    let t = choose|t: int| 0 <= t < rest.len() && rest[t] == j;
                    assert(live_indices(s, from)[t + 1] == j);
                }
            }
        } else {
            assert forall|j: int| from <= j < s.len() && s[j] != 0 implies live_indices(
                s,
                from,
            ).contains(j) by {
                let t = choose|t: int| 0 <= t < rest.len() && rest[t] == j;
                assert(live_indices(s, from)[t] == j);
            }
        }
    }
}

impl PlayersIterator {
    /// The next live slot's handle, advancing past it; `None` once the
    /// walk has passed the last live slot.
    pub fn next(&mut self) -> (r: Option<Player>)
        requires
            old(self).wf(),
        ensures
            final(self).wf(),
            final(self).layout == old(self).layout,
            final(self).slots@ == old(self).slots@,
            ({
                let j = first_live(old(self).slots@, old(self).index as int);
                if j < old(self).slots@.len() {
                    &&& r == Some(
                        Player { layout: old(self).layout, addr: old(self).slots@[j] },
                    )
                    &&& final(self).index == j + 1
                } else {
                    &&& r is None
                    &&& final(self).index == j
                }
            }),
    {
        while self.index < self.slots.len()
            invariant
                old(self).index <= self.index <= self.slots@.len(),
                self.layout == old(self).layout,
                self.slots@ == old(self).slots@,
                forall|k: int| old(self).index <= k < self.index ==> self.slots@[k] == 0,
            decreases self.slots@.len() - self.index,
        {
            let slot = self.slots[self.index];
            self.index += 1;
            if slot != 0 {
                proof {
                    lemma_first_live(self.slots@, old(self).index as int, self.index - 1);
                }
                return Some(Player { layout: self.layout, addr: slot });
            }
        }
        proof {
            lemma_first_live(self.slots@, old(self).index as int, self.slots@.len() as int);
        }
        None
    }

    /// Walk the remaining slots to the end, yielding every live slot's
    /// handle in index order.
    pub fn collect(&mut self) -> (r: Vec<Player>)
        requires
            old(self).wf(),
        ensures
            final(self).wf(),
            final(self).layout == old(self).layout,
            final(self).slots@ == old(self).slots@,
            final(self).index == old(self).slots@.len(),
            r@ == live_handles(old(self).layout, old(self).slots@, old(self).index as int),
    {
        let mut r: Vec<Player> = Vec::new();
        while self.index < self.slots.len()
            invariant
                old(self).index <= self.index <= self.slots@.len(),
                self.layout == old(self).layout,
                self.slots@ == old(self).slots@,
                live_handles(old(self).layout, old(self).slots@, old(self).index as int) =~= r@
                    + live_handles(old(self).layout, self.slots@, self.index as int),
            decreases self.slots@.len() - self.index,
        {
            let slot = self.slots[self.index];
            self.index += 1;
            if slot != 0 {
                let p = Player { layout: self.layout, addr: slot };
                r.push(p);
                proof {
                    assert(r@ + live_handles(old(self).layout, self.slots@, self.index as int)
                        =~= r@.drop_last() + (seq![p] + live_handles(
                        old(self).layout,
                        self.slots@,
                        self.index as int,
                    )));
                }
            }
        }
        proof {
            assert(live_handles(old(self).layout, self.slots@, self.index as int)
                =~= Seq::<Player>::empty());
            assert(r@ + Seq::<Player>::empty() =~= r@);
        }
        r
    }
}

/// Take a fresh snapshot of the pool's slot table and start a walk over
/// it at the first index. An absent pool yields the empty walk.
pub fn players(mem: &ForeignMemory, layout: Layout) -> (r: Option<PlayersIterator>)
    requires
        mem.wf(),
    ensures
        r is Some,
        ({
            let it = r->Some_0;
            &&& it.wf()
            &&& it.layout == layout
            &&& it.index == 0
            &&& pool_ptr(*mem, layout) == 0 ==> it.slots@.len() == 0
            &&& pool_ptr(*mem, layout) != 0 ==> {
                &&& it.slots@.len() == SLOT_CAPACITY
                &&& forall|i: int| 0 <= i < SLOT_CAPACITY ==> it.slots@[i] == slot_ptr(
                    *mem,
                    layout,
                    pool_ptr(*mem, layout),
                    i,
                )
            }
        }),
{
    let pool = player_pool(mem, layout);
    let mut slots: Vec<usize> = Vec::new();
    if pool.addr != 0 {
        let mut i: usize = 0;
        while i < SLOT_CAPACITY
            invariant
                mem.wf(),
                i <= SLOT_CAPACITY,
                pool.addr == pool_ptr(*mem, layout),
                pool.layout == layout,
                slots@.len() == i,
                forall|k: int| 0 <= k < i ==> slots@[k] == slot_ptr(
                    *mem,
                    layout,
                    pool.addr as int,
                    k,
                ),
            decreases SLOT_CAPACITY - i,
        {
            let s = read_slot(mem, layout, pool.addr, i);
            slots.push(s);
            i += 1;
        }
    }
    Some(PlayersIterator { layout, slots, index: 0 })
}

} // verus!
