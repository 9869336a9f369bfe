use sampwatch::foreign::ForeignMemory;
use sampwatch::layout::{resolve, table_for, Layout, LayoutTable, SIGNATURE_OFF, SIG_V037,
    SIG_V037R3, SIG_V03DL};
use sampwatch::players::{find_player, local_player, player_pool, players, LocalPlayer, Player};
use sampwatch::session::{DisconnectCall, NetGame, QUIT_OFF};
use sampwatch::values::{Endpoint, Matrix, Vec3};

const BASE: usize = 0x40_0000;
const SESSION: usize = 0x41_0000;
const POOL: usize = 0x42_0000;
const LOCAL: usize = 0x43_0000;
const INFO: usize = 0x44_0000;
const REMOTE: usize = 0x45_0000;
const MATRIX: usize = 0x46_0000;
const PED: usize = 0x47_0000;
const PED_WRAP: usize = 0x48_0000;
const GAME_PED: usize = 0x49_0000;

fn put_u8(mem: &mut ForeignMemory, addr: usize, v: u8) {
    let o = addr - mem.base;
    mem.bytes[o] = v;
}

fn put_u16(mem: &mut ForeignMemory, addr: usize, v: u16) {
    let o = addr - mem.base;
    mem.bytes[o..o + 2].copy_from_slice(&v.to_le_bytes());
}

fn put_u32(mem: &mut ForeignMemory, addr: usize, v: u32) {
    let o = addr - mem.base;
    mem.bytes[o..o + 4].copy_from_slice(&v.to_le_bytes());
}

fn put_u64(mem: &mut ForeignMemory, addr: usize, v: u64) {
    let o = addr - mem.base;
    mem.bytes[o..o + 8].copy_from_slice(&v.to_le_bytes());
}

fn put_bytes(mem: &mut ForeignMemory, addr: usize, v: &[u8]) {
    let o = addr - mem.base;
    mem.bytes[o..o + v.len()].copy_from_slice(v);
}

fn put_vec3(mem: &mut ForeignMemory, addr: usize, v: Vec3) {
    put_u32(mem, addr, v.x);
    put_u32(mem, addr + 4, v.y);
    put_u32(mem, addr + 8, v.z);
}

fn signature_of(layout: Layout) -> u32 {
    match layout {
        Layout::V037 => SIG_V037,
        Layout::V037R3 => SIG_V037R3,
        Layout::V03Dl => SIG_V03DL,
    }
}

/// An empty module image carrying the layout's signature word.
fn bare_fixture(layout: Layout) -> (ForeignMemory, LayoutTable) {
    let mut mem = ForeignMemory { base: BASE, bytes: vec![0u8; 0x10_0000 + 0x40_0000] };
    put_u32(&mut mem, BASE + SIGNATURE_OFF, signature_of(layout));
    (mem, table_for(layout))
}

fn v3(x: u32, y: u32, z: u32) -> Vec3 {
    Vec3 { x, y, z }
}

/// A module image with a session, a pool whose slot 7 holds one fully
/// populated player, and a local player.
fn full_fixture(layout: Layout) -> (ForeignMemory, LayoutTable) {
    let (mut mem, t) = bare_fixture(layout);
    put_u32(&mut mem, BASE + t.netgame_off, SESSION as u32);
    put_u32(&mut mem, BASE + t.pool_off, POOL as u32);
    put_u32(&mut mem, BASE + t.local_off, LOCAL as u32);

    put_u32(&mut mem, SESSION + t.endpoint_off, 0xC0A8_0001);
    put_u16(&mut mem, SESSION + t.endpoint_off + 4, 7777);

    put_u32(&mut mem, POOL + t.slots_off + 4 * 7, INFO as u32);

    put_bytes(&mut mem, INFO + t.info_name_off, b"Bob\0");
    put_u16(&mut mem, INFO + t.info_id_off, 7);
    put_u8(&mut mem, INFO + t.info_stream_off, 1);
    put_u64(&mut mem, INFO + t.info_hash_off, 0xAABB_CCDD_1122_3344);
    put_u32(&mut mem, INFO + t.info_remote_off, REMOTE as u32);
    put_u32(&mut mem, INFO + t.info_ped_off, PED as u32);
    put_u32(&mut mem, PED + 20, 0x777);

    put_vec3(&mut mem, REMOTE + t.pos_off, v3(1, 2, 3));
    put_vec3(&mut mem, REMOTE + t.vel_off, v3(4, 5, 6));
    put_vec3(&mut mem, REMOTE + t.head_off, v3(7, 8, 9));
    put_u32(&mut mem, REMOTE + t.matrix_off, MATRIX as u32);
    put_u16(&mut mem, REMOTE + t.remote_id_off, 42);

    put_vec3(&mut mem, MATRIX, v3(10, 11, 12));
    put_vec3(&mut mem, MATRIX + 16, v3(13, 14, 15));
    put_vec3(&mut mem, MATRIX + 32, v3(16, 17, 18));
    put_vec3(&mut mem, MATRIX + 48, v3(19, 20, 21));

    put_bytes(&mut mem, LOCAL + t.local_name_off, b"Me\0");
    put_u32(&mut mem, LOCAL + t.local_id_off, 5);
    put_vec3(&mut mem, LOCAL + t.pos_off, v3(31, 32, 33));
    put_vec3(&mut mem, LOCAL + t.vel_off, v3(34, 35, 36));
    put_u32(&mut mem, LOCAL + t.matrix_off, MATRIX as u32);
    put_u32(&mut mem, LOCAL + t.local_ped_off, PED_WRAP as u32);
    put_u32(&mut mem, PED_WRAP + t.ped_game_off, GAME_PED as u32);

    (mem, t)
}

#[test]
fn session_reads_match_fixture_on_every_layout() {
    for layout in [Layout::V037, Layout::V037R3, Layout::V03Dl] {
        let (mem, _) = full_fixture(layout);
        assert_eq!(resolve(&mem), Ok(layout));
        let game = NetGame::get(&mem, layout).unwrap();
        assert_eq!(game.addr, SESSION);
        assert_eq!(game.addr(&mem), Some(Endpoint { ip: 0xC0A8_0001, port: 7777 }));
    }
}

#[test]
fn absent_session_is_surfaced_as_absent() {
    for layout in [Layout::V037, Layout::V037R3, Layout::V03Dl] {
        let (mem, _) = bare_fixture(layout);
        assert!(NetGame::get(&mem, layout).is_none());

        let unresolved = NetGame { layout, addr: 0 };
        assert_eq!(unresolved.addr(&mem), None);
        assert_eq!(unresolved.quit_game(&mem), None);
    }
}

#[test]
fn quit_game_is_supported_only_on_one_layout() {
    let (mem, _) = full_fixture(Layout::V037R3);
    let game = NetGame::get(&mem, Layout::V037R3).unwrap();
    assert_eq!(
        game.quit_game(&mem),
        Some(DisconnectCall { func: BASE + QUIT_OFF, session: SESSION })
    );

    for layout in [Layout::V037, Layout::V03Dl] {
        let (mem, _) = full_fixture(layout);
        let game = NetGame::get(&mem, layout).unwrap();
        assert_eq!(game.quit_game(&mem), None);
    }
}

#[test]
fn player_reads_match_fixture_on_every_layout() {
    for layout in [Layout::V037, Layout::V037R3, Layout::V03Dl] {
        let (mem, _) = full_fixture(layout);
        let p = find_player(&mem, layout, 7).unwrap();
        assert_eq!(p.addr, INFO);
        assert_eq!(p.name(&mem), Some("Bob".to_string()));
        assert_eq!(p.name_with_id(&mem), "[ID: 7] Bob");
        assert!(p.is_in_stream(&mem));
        assert_eq!(p.hash(&mem), 0xAABB_CCDD_1122_3344);

        let ped = p.gta_ped(&mem).unwrap();
        assert_eq!(ped.matrix, 0x777);

        let r = p.remote_player(&mem).unwrap();
        assert_eq!(r.addr, REMOTE);
        assert_eq!(r.position(&mem), v3(1, 2, 3));
        assert_eq!(r.velocity(&mem), v3(4, 5, 6));
        assert_eq!(r.head_direction(&mem), v3(7, 8, 9));
        assert_eq!(r.id(&mem), 42);
        assert_eq!(
            r.matrix(&mem),
            Some(Matrix {
                right: v3(10, 11, 12),
                up: v3(13, 14, 15),
                at: v3(16, 17, 18),
                pos: v3(19, 20, 21),
            })
        );
    }
}

#[test]
fn local_player_reads_match_fixture_on_every_layout() {
    for layout in [Layout::V037, Layout::V037R3, Layout::V03Dl] {
        let (mem, _) = full_fixture(layout);
        let lp = local_player(&mem, layout).unwrap();
        assert_eq!(lp.addr, LOCAL);
        assert_eq!(lp.name(&mem), Some("Me".to_string()));
        assert_eq!(lp.id(&mem), Some(5));
        assert_eq!(lp.position(&mem), v3(31, 32, 33));
        assert_eq!(lp.velocity(&mem), v3(34, 35, 36));
        assert!(lp.matrix(&mem).is_some());
        assert_eq!(lp.ped(&mem), GAME_PED);
    }
}

#[test]
fn unresolved_player_returns_documented_defaults() {
    let (mem, _) = full_fixture(Layout::V037);
    // Slot 3 is empty: the pool resolves the identifier to no player.
    assert!(find_player(&mem, Layout::V037, 3).is_none());

    let p = Player { layout: Layout::V037, addr: 0 };
    assert_eq!(p.name(&mem), None);
    assert_eq!(p.name_with_id(&mem), "[ID: -1] noname");
    assert_eq!(p.hash(&mem), u64::MAX);
    assert!(!p.is_in_stream(&mem));
    assert_eq!(p.gta_ped(&mem), None);

    let r = p.remote_player(&mem).unwrap();
    assert_eq!(r.addr, 0);
    assert_eq!(r.position(&mem), v3(0, 0, 0));
    assert_eq!(r.velocity(&mem), v3(0, 0, 0));
    assert_eq!(r.head_direction(&mem), v3(0, 0, 0));
    assert_eq!(r.matrix(&mem), None);
    assert_eq!(r.id(&mem), u16::MAX);
}

#[test]
fn unresolved_local_player_returns_documented_defaults() {
    let (mem, _) = bare_fixture(Layout::V037R3);
    assert!(local_player(&mem, Layout::V037R3).is_none());

    let lp = LocalPlayer { layout: Layout::V037R3, addr: 0 };
    assert_eq!(lp.name(&mem), None);
    assert_eq!(lp.id(&mem), None);
    assert_eq!(lp.position(&mem), v3(0, 0, 0));
    assert_eq!(lp.velocity(&mem), v3(0, 0, 0));
    assert_eq!(lp.matrix(&mem), None);
    assert_eq!(lp.ped(&mem), 0);
}

#[test]
fn null_remote_and_matrix_pointers_fold_to_defaults() {
    let layout = Layout::V037;
    let (mut mem, t) = full_fixture(layout);
    put_u32(&mut mem, INFO + t.info_remote_off, 0);
    put_u32(&mut mem, INFO + t.info_ped_off, 0);
    put_u32(&mut mem, LOCAL + t.matrix_off, 0);

    let p = find_player(&mem, layout, 7).unwrap();
    assert_eq!(p.gta_ped(&mem), None);
    let r = p.remote_player(&mem).unwrap();
    assert_eq!(r.addr, 0);
    assert_eq!(r.matrix(&mem), None);

    let lp = local_player(&mem, layout).unwrap();
    assert_eq!(lp.matrix(&mem), None);
}

#[test]
fn find_player_rejects_out_of_range_identifiers() {
    let (mem, _) = full_fixture(Layout::V037);
    assert!(find_player(&mem, Layout::V037, -1).is_none());
    assert!(find_player(&mem, Layout::V037, 1000).is_none());
    assert!(find_player(&mem, Layout::V037, 999).is_none());
}

#[test]
fn walk_yields_each_live_slot_in_index_order() {
    let layout = Layout::V03Dl;
    let (mut mem, t) = bare_fixture(layout);
    put_u32(&mut mem, BASE + t.pool_off, POOL as u32);
    let live = [(5usize, 0x51000u32), (17, 0x52000), (999, 0x53000)];
    for (i, a) in live {
        put_u32(&mut mem, POOL + t.slots_off + 4 * i, a);
    }

    let mut it = players(&mem, layout).unwrap();
    let handles = it.collect();
    assert_eq!(handles.len(), live.len());
    for (h, (_, a)) in handles.iter().zip(live.iter()) {
        assert_eq!(h.addr, *a as usize);
        assert_eq!(h.layout, layout);
    }

    let mut it2 = players(&mem, layout).unwrap();
    assert_eq!(it2.next().map(|p| p.addr), Some(0x51000));
    assert_eq!(it2.next().map(|p| p.addr), Some(0x52000));
    assert_eq!(it2.next().map(|p| p.addr), Some(0x53000));
    assert!(it2.next().is_none());
    assert!(it2.next().is_none());
}

#[test]
fn walk_takes_a_fresh_snapshot_each_time() {
    let layout = Layout::V037;
    let (mut mem, t) = bare_fixture(layout);
    put_u32(&mut mem, BASE + t.pool_off, POOL as u32);
    put_u32(&mut mem, POOL + t.slots_off, 0x61000);

    let mut first = players(&mem, layout).unwrap();
    assert_eq!(first.collect().len(), 1);

    put_u32(&mut mem, POOL + t.slots_off + 4, 0x62000);
    let mut second = players(&mem, layout).unwrap();
    let handles = second.collect();
    assert_eq!(handles.len(), 2);
    assert_eq!(handles[1].addr, 0x62000);
}

#[test]
fn walk_over_absent_pool_is_empty() {
    let (mem, _) = bare_fixture(Layout::V037);
    let mut it = players(&mem, Layout::V037).unwrap();
    assert!(it.next().is_none());
    assert_eq!(player_pool(&mem, Layout::V037).addr, 0);
}

#[test]
fn name_uses_full_window_when_no_nul_terminates_it() {
    let layout = Layout::V037;
    let (mut mem, t) = full_fixture(layout);
    put_bytes(&mut mem, INFO + t.info_name_off, b"abcdefghijklmnopqrstuvwx");
    let p = find_player(&mem, layout, 7).unwrap();
    assert_eq!(p.name(&mem), Some("abcdefghijklmnopqrstuvwx".to_string()));
}

#[test]
fn name_with_id_formats_resolved_identity() {
    let layout = Layout::V037R3;
    let (mut mem, t) = full_fixture(layout);
    put_u16(&mut mem, INFO + t.info_id_off, 0);
    let p = find_player(&mem, layout, 7).unwrap();
    assert_eq!(p.name_with_id(&mem), "[ID: 0] Bob");

    put_u16(&mut mem, INFO + t.info_id_off, 65535);
    put_bytes(&mut mem, INFO + t.info_name_off, b"X\0");
    assert_eq!(p.name_with_id(&mem), "[ID: 65535] X");
}

#[test]
fn unresolved_handle_hash_is_the_maximum_64_bit_value() {
    let p = Player { layout: Layout::V037R3, addr: 0 };
    let (mem, _) = bare_fixture(Layout::V037R3);
    assert_eq!(p.hash(&mem), u64::MAX);
}
