use realjump::{Trampoline, ENTRY_SLOT_SIZE, MAX_TRAMPOLINE_SIZE, TRAMPOLINE_ADDR};

#[test]
fn image_without_code_behind_the_slot_is_no_trampoline() {
    assert_eq!(ENTRY_SLOT_SIZE, 2);
    assert!(Trampoline::new(&[]).is_none());
    assert!(Trampoline::new(&[0x00]).is_none());
    assert!(Trampoline::new(&[0x00, 0x00]).is_none());
    assert!(Trampoline::new(&[0x00, 0x00, 0xf4]).is_some());
}

#[test]
fn image_that_ends_past_the_last_16_bit_address_is_no_trampoline() {
    assert_eq!(MAX_TRAMPOLINE_SIZE, 0xfaff);
    assert_eq!(TRAMPOLINE_ADDR as usize + MAX_TRAMPOLINE_SIZE, 0xffff);
    let image = vec![0x90u8; MAX_TRAMPOLINE_SIZE + 1];
    assert!(Trampoline::new(&image).is_none());
    assert!(Trampoline::new(&image[..MAX_TRAMPOLINE_SIZE]).is_some());
    assert!(Trampoline::new(&vec![0x90u8; 0x2_0000]).is_none());
}

#[test]
fn trampoline_keeps_its_image() {
    let image: Vec<u8> = (0..200u8).collect();
    let trampoline = Trampoline::new(&image).unwrap();
    assert_eq!(trampoline.image(), &image[..]);
    assert_eq!(trampoline.size(), 200);
    assert_eq!(trampoline.end(), 0x500 + 200);
}

#[test]
fn largest_trampoline_ends_at_the_last_16_bit_address() {
    let image = vec![0x90u8; MAX_TRAMPOLINE_SIZE];
    let trampoline = Trampoline::new(&image).unwrap();
    assert_eq!(trampoline.size(), 0xfaff);
    assert_eq!(trampoline.end(), 0xffff);
}
