use resona::mem::{LoadError, Memory};

#[test]
fn new_memory_is_zeroed() {
    let m = Memory::new(128);
    assert_eq!(m.data.len(), 128);
    assert!(m.data.iter().all(|&b| b == 0));
}

#[test]
fn read_write_u32_little_endian() {
    let mut m = Memory::new(32);
    m.write_u32(4, 0x11223344);
    assert_eq!(&m.data[4..8], &[0x44, 0x33, 0x22, 0x11]);
    assert_eq!(m.read_u32(4), 0x11223344);
    // neighbouring bytes untouched
    assert_eq!(m.data[3], 0);
    assert_eq!(m.data[8], 0);
}

#[test]
fn write_roundtrips_at_any_in_bounds_address() {
    let mut m = Memory::new(64);
    for addr in [0usize, 1, 7, 30, 60] {
        let v = 0xcafe0000u32 | addr as u32;
        m.write_u32(addr, v);
        assert_eq!(m.read_u32(addr), v);
    }
}

#[test]
fn load_binary_copies_prefix_and_rejects_oversize() {
    let mut m = Memory::new(8);
    assert_eq!(m.load_binary(&vec![1, 2, 3]), Ok(()));
    assert_eq!(m.data, vec![1, 2, 3, 0, 0, 0, 0, 0]);
    assert_eq!(m.load_binary(&vec![0; 9]), Err(LoadError::ImageTooLarge));
    // a failed load changes nothing
    assert_eq!(m.data, vec![1, 2, 3, 0, 0, 0, 0, 0]);
}
