use asm6502::nes2::{Cartridge, DefaultExpansionDevice, TimingMode, BANK_SIZE};
use asm6502::parser::lines::strip_line;

#[test]
fn cartridge_cuts_banks_from_the_image() {
    let mut image = vec![0u8; 0x10000];
    image[0x8000] = 0x11;
    image[0x9FFF] = 0x22;
    image[0xC000] = 0x33;
    image[0x0000] = 0x44;
    let cart = Cartridge::new(&image, vec![0x8000, 0xC000, 0x0000]);
    assert_eq!(cart.header, vec![0x4E, 0x45, 0x53, 0x1A, 1, 1, 1, 8, 0, 0, 0, 0, 0, 0, 0, 1]);
    assert_eq!(cart.prg_rom.len(), 2 * BANK_SIZE);
    assert_eq!(cart.prg_rom[0], 0x11);
    assert_eq!(cart.prg_rom[BANK_SIZE - 1], 0x22);
    assert_eq!(cart.prg_rom[BANK_SIZE], 0x33);
    assert_eq!(cart.chr_rom.len(), BANK_SIZE);
    assert_eq!(cart.chr_rom[0], 0x44);
    let bytes = cart.into_bytes();
    assert_eq!(bytes.len(), 16 + 3 * BANK_SIZE);
    assert_eq!(bytes[16], 0x11);
    assert_eq!(bytes[16 + 2 * BANK_SIZE], 0x44);
}

#[test]
fn header_codes() {
    assert_eq!(TimingMode::Ntsc.code(), 0);
    assert_eq!(TimingMode::Dendy.code(), 3);
    assert_eq!(DefaultExpansionDevice::StandarNesController.code(), 1);
    assert_eq!(DefaultExpansionDevice::Unspecified.code(), 0);
}

#[test]
fn comments_are_stripped() {
    assert_eq!(strip_line(b"  LDA #$01 ; load one"), Some(b"  LDA #$01 ".to_vec()));
    assert_eq!(strip_line(b"; only a comment"), Some(Vec::new()));
    assert_eq!(strip_line(b".incbin \"a;b\""), Some(b".incbin \"a".to_vec()));
    assert_eq!(strip_line(b"x\\n"), Some(vec![b'x', 0x10]));
    assert_eq!(strip_line(b"\\\"q"), None);
    assert_eq!(strip_line(b"\\\""), Some(b"\"".to_vec()));
}
