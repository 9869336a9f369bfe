use sampwatch::foreign::ForeignMemory;
use sampwatch::layout::{resolve, Layout, LayoutError, SIGNATURE_OFF, SIG_V037, SIG_V037R3,
    SIG_V03DL};

fn put_u32(mem: &mut ForeignMemory, addr: usize, v: u32) {
    let o = addr - mem.base;
    mem.bytes[o..o + 4].copy_from_slice(&v.to_le_bytes());
}

fn small_mem() -> ForeignMemory {
    ForeignMemory { base: 0x1000, bytes: vec![0u8; 0x1000] }
}

#[test]
fn wf_check_tells_a_usable_snapshot_from_a_wrapping_one() {
    assert!(small_mem().wf_check());
    let wrapping = ForeignMemory { base: usize::MAX, bytes: vec![0u8; 2] };
    assert!(!wrapping.wf_check());
}

#[test]
fn read_u8_in_and_out_of_bounds() {
    let mut mem = small_mem();
    mem.bytes[0x10] = 0xAB;
    assert_eq!(mem.read_u8(0x1010), Some(0xAB));
    assert_eq!(mem.read_u8(0x0FFF), None);
    assert_eq!(mem.read_u8(0x2000), None);
    assert_eq!(mem.read_u8(0x1FFF), Some(0));
}

#[test]
fn read_u16_little_endian() {
    let mut mem = small_mem();
    mem.bytes[0x20] = 0x34;
    mem.bytes[0x21] = 0x12;
    assert_eq!(mem.read_u16(0x1020), Some(0x1234));
    assert_eq!(mem.read_u16(0x1FFF), None);
}

#[test]
fn read_u32_little_endian() {
    let mut mem = small_mem();
    mem.bytes[0x30..0x34].copy_from_slice(&[0x78, 0x56, 0x34, 0x12]);
    assert_eq!(mem.read_u32(0x1030), Some(0x12345678));
    assert_eq!(mem.read_u32(0x1FFD), None);
}

#[test]
fn read_u64_little_endian() {
    let mut mem = small_mem();
    mem.bytes[0x40..0x48].copy_from_slice(&[1, 2, 3, 4, 5, 6, 7, 8]);
    assert_eq!(mem.read_u64(0x1040), Some(0x0807060504030201));
    assert_eq!(mem.read_u64(0x1FF9), None);
}

#[test]
fn read_ptr_folds_unreadable_to_null() {
    let mut mem = small_mem();
    put_u32(&mut mem, 0x1050, 0xDEAD10);
    assert_eq!(mem.read_ptr_or_null(0x1050), 0xDEAD10);
    assert_eq!(mem.read_ptr_or_null(0x3000), 0);
}

#[test]
fn resolve_classifies_each_signature() {
    for (sig, expect) in [
        (SIG_V037, Layout::V037),
        (SIG_V037R3, Layout::V037R3),
        (SIG_V03DL, Layout::V03Dl),
    ] {
        let mut mem = small_mem();
        let sig_addr = mem.base + SIGNATURE_OFF;
        put_u32(&mut mem, sig_addr, sig);
        assert_eq!(resolve(&mem), Ok(expect));
    }
}

#[test]
fn resolve_rejects_unknown_signature() {
    let mut mem = small_mem();
    let sig_addr = mem.base + SIGNATURE_OFF;
    put_u32(&mut mem, sig_addr, 0x11223344);
    assert_eq!(resolve(&mem), Err(LayoutError::UnsupportedLayout));
}

#[test]
fn resolve_rejects_truncated_module() {
    let mem = ForeignMemory { base: 0x1000, bytes: vec![0u8; 8] };
    assert_eq!(resolve(&mem), Err(LayoutError::UnsupportedLayout));
}
