use triple_trouble_splitter::resolver::PointerWidth;
use triple_trouble_splitter::sampler::{room_name, slot_address};

#[test]
fn room_name_stops_at_nul() {
    assert_eq!(room_name(b"rmGTZ1\0junk"), b"rmGTZ1".to_vec());
}

#[test]
fn room_name_of_unreadable_is_empty() {
    assert_eq!(room_name(b""), Vec::<u8>::new());
    assert_eq!(room_name(b"\0rmGTZ1"), Vec::<u8>::new());
}

#[test]
fn room_name_is_capped_at_capacity() {
    let buf = [b'a'; 40];
    assert_eq!(room_name(&buf), vec![b'a'; 25]);
    assert_eq!(room_name(b"rmKnuxEnding2"), b"rmKnuxEnding2".to_vec());
}

#[test]
fn slot_addresses_by_width() {
    assert_eq!(slot_address(0x1000, 3, PointerWidth::Bits64), Some(0x1018));
    assert_eq!(slot_address(0x1000, 3, PointerWidth::Bits32), Some(0x100C));
    assert_eq!(slot_address(0xFFFF_FFFC, 1, PointerWidth::Bits32), None);
    assert_eq!(slot_address(0xFFFF_FFF8, 1, PointerWidth::Bits32), Some(0xFFFF_FFFC));
    assert_eq!(slot_address(u64::MAX - 7, 1, PointerWidth::Bits64), None);
    assert_eq!(slot_address(u64::MAX - 8, 1, PointerWidth::Bits64), Some(u64::MAX));
}
