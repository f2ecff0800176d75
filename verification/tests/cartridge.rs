use runes::cartridge::{Cartridge, CartridgeError, Mirroring};

fn image(prg_units: u8, chr_units: u8, flags: u8, flags2: u8) -> Vec<u8> {
    let mut data = vec![0x4E, 0x45, 0x53, 0x1A, prg_units, chr_units, flags, flags2];
    data.extend_from_slice(&[8, 9, 10, 11, 12, 13, 14, 15]);
    if flags & 0x04 != 0 {
        data.extend_from_slice(&[0xEEu8; 512]);
    }
    for i in 0..(prg_units as usize * 16384) {
        data.push((i % 251) as u8);
    }
    for i in 0..(chr_units as usize * 8192) {
        data.push((i % 241) as u8 ^ 0x80);
    }
    data
}

#[test]
fn load_one_unit_of_each() {
    let data = image(1, 1, 0, 0);
    assert_eq!(data.len(), 16 + 16384 + 8192);
    let cartridge = Cartridge::new(&data).unwrap();
    assert_eq!(cartridge.prg_rom().len(), 16384);
    assert_eq!(cartridge.chr_rom().len(), 8192);
    assert_eq!(cartridge.prg_rom()[0], 0);
    assert_eq!(cartridge.prg_rom()[300], (300 % 251) as u8);
    assert_eq!(cartridge.prg_rom()[16383], (16383 % 251) as u8);
    assert_eq!(cartridge.chr_rom()[0], 0x80);
    assert_eq!(cartridge.chr_rom()[5], 5 ^ 0x80);
    assert_eq!(cartridge.mapper(), 0);
    assert_eq!(cartridge.mirroring(), Mirroring::Horizontal);
    assert!(cartridge.fills_program_window());
}

#[test]
fn corrupted_magic_is_a_format_error() {
    for position in 0..4 {
        let mut data = image(1, 1, 0, 0);
        data[position] ^= 0x01;
        assert!(matches!(Cartridge::new(&data), Err(CartridgeError::Format)));
    }
}

#[test]
fn header_fields_are_kept() {
    let data = image(2, 1, 0x31, 0x40);
    let cartridge = Cartridge::new(&data).unwrap();
    let header = cartridge.header();
    assert_eq!(header.name, [0x4E, 0x45, 0x53, 0x1A]);
    assert_eq!(header.prg_rom_size, 2);
    assert_eq!(header.chr_rom_size, 1);
    assert_eq!(header.mapper_1, 0x31);
    assert_eq!(header.mapper_2, 0x40);
    assert_eq!(header.prg_ram_size, 8);
    assert_eq!(header.tv_system_1, 9);
    assert_eq!(header.tv_system_2, 10);
    assert_eq!(header.unused, [11, 12, 13, 14, 15]);
}

#[test]
fn mapper_id_joins_the_two_high_nibbles() {
    let cartridge = Cartridge::new(&image(1, 1, 0x31, 0x40)).unwrap();
    assert_eq!(cartridge.mapper(), 0x43);
    let cartridge = Cartridge::new(&image(1, 1, 0xF0, 0xFF)).unwrap();
    assert_eq!(cartridge.mapper(), 0xFF);
    let cartridge = Cartridge::new(&image(1, 1, 0x0F & !0x04, 0x0F)).unwrap();
    assert_eq!(cartridge.mapper(), 0x00);
}

#[test]
fn mirroring_comes_from_bit_zero_of_the_flags() {
    let cartridge = Cartridge::new(&image(1, 1, 0x00, 0)).unwrap();
    assert_eq!(cartridge.mirroring(), Mirroring::Horizontal);
    let cartridge = Cartridge::new(&image(1, 1, 0x01, 0)).unwrap();
    assert_eq!(cartridge.mirroring(), Mirroring::Vertical);
}

#[test]
fn trainer_is_skipped() {
    let data = image(1, 1, 0x04, 0);
    assert_eq!(data.len(), 16 + 512 + 16384 + 8192);
    let cartridge = Cartridge::new(&data).unwrap();
    assert_eq!(cartridge.prg_rom().len(), 16384);
    assert_eq!(cartridge.prg_rom()[0], 0);
    assert_eq!(cartridge.prg_rom()[1], 1);
    assert_eq!(cartridge.chr_rom()[0], 0x80);
    assert_eq!(cartridge.chr_rom().len(), 8192);
}

#[test]
fn without_trainer_flag_the_rom_follows_the_header() {
    let mut data = image(1, 1, 0x00, 0);
    data[16] = 0xAB;
    let cartridge = Cartridge::new(&data).unwrap();
    assert_eq!(cartridge.prg_rom()[0], 0xAB);
}

#[test]
fn sizes_follow_the_header_units() {
    let cartridge = Cartridge::new(&image(2, 0, 0, 0)).unwrap();
    assert_eq!(cartridge.prg_rom().len(), 32768);
    assert_eq!(cartridge.chr_rom().len(), 0);
    assert!(cartridge.fills_program_window());
    let cartridge = Cartridge::new(&image(0, 2, 0, 0)).unwrap();
    assert_eq!(cartridge.prg_rom().len(), 0);
    assert_eq!(cartridge.chr_rom().len(), 16384);
    assert!(!cartridge.fills_program_window());
    let cartridge = Cartridge::new(&image(3, 1, 0, 0)).unwrap();
    assert_eq!(cartridge.prg_rom().len(), 49152);
    assert!(cartridge.fills_program_window());
}

#[test]
fn bytes_after_the_image_are_ignored() {
    let mut data = image(1, 1, 0, 0);
    data.extend_from_slice(&[1, 2, 3]);
    let cartridge = Cartridge::new(&data).unwrap();
    assert_eq!(cartridge.prg_rom().len(), 16384);
    assert_eq!(cartridge.chr_rom().len(), 8192);
    assert_eq!(cartridge.chr_rom()[8191], (8191 % 241) as u8 ^ 0x80);
}

#[test]
fn short_header_is_truncated() {
    assert!(matches!(Cartridge::new(&[]), Err(CartridgeError::Truncated)));
    let data = image(1, 1, 0, 0);
    assert!(matches!(Cartridge::new(&data[..15]), Err(CartridgeError::Truncated)));
}

#[test]
fn short_header_wins_over_bad_magic() {
    assert!(matches!(Cartridge::new(&[0u8; 15]), Err(CartridgeError::Truncated)));
    assert!(matches!(Cartridge::new(&[0u8; 16]), Err(CartridgeError::Format)));
}

#[test]
fn short_rom_data_is_truncated() {
    let data = image(1, 1, 0, 0);
    let short = &data[..data.len() - 1];
    assert!(matches!(Cartridge::new(short), Err(CartridgeError::Truncated)));
    assert!(matches!(Cartridge::new(&data[..16]), Err(CartridgeError::Truncated)));
    let with_trainer = image(1, 1, 0x04, 0);
    let short = &with_trainer[..16 + 16384 + 8192];
    assert!(matches!(Cartridge::new(short), Err(CartridgeError::Truncated)));
}

#[test]
fn bad_magic_wins_over_short_rom_data() {
    let mut data = image(1, 1, 0, 0);
    data[0] = 0;
    assert!(matches!(Cartridge::new(&data[..100]), Err(CartridgeError::Format)));
}

#[test]
fn empty_image_with_header_only_loads() {
    let cartridge = Cartridge::new(&image(0, 0, 0, 0)).unwrap();
    assert_eq!(cartridge.prg_rom().len(), 0);
    assert_eq!(cartridge.chr_rom().len(), 0);
}
