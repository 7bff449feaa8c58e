use nes_core::cartridge::CartridgeData;
use nes_core::cartridge::Fault;
use nes_core::cartridge::Header;
use nes_core::cartridge::Mapper;
use nes_core::cartridge::Mirroring;
use nes_core::cartridge::mapper2::Mapper2;
use nes_core::cartridge::mapper3::Mapper3;
use nes_core::cartridge::pager::Pager;

/// A buffer of `banks` banks of `bank_size` bytes, each filled with its own
/// bank index.
fn banked_rom(banks: usize, bank_size: usize) -> Pager {
    let mut data: Vec<u8> = Vec::new();
    let mut b: usize = 0;
    while b < banks {
        let mut i: usize = 0;
        while i < bank_size {
            data.push(b as u8);
            i += 1;
        }
        b += 1;
    }
    Pager::new(data)
}

fn cartridge(prg_banks: usize, chr_rom_pages: u8, mirroring: Mirroring) -> CartridgeData {
    CartridgeData {
        prg_rom: banked_rom(prg_banks, 0x4000),
        chr_rom: banked_rom(chr_rom_pages as usize, 0x2000),
        chr_ram: Pager::new(vec![0u8; 0x2000]),
        header: Header {
            mirroring,
            chr_rom_pages,
        },
    }
}

#[test]
fn test_mapper2_prg_bank_switching() {
    let mut m = Mapper2::new(cartridge(4, 1, Mirroring::Horizontal));
    assert_eq!(0, m.read_prg_byte(0x8000).unwrap());
    assert_eq!(3, m.read_prg_byte(0xC000).unwrap());
    m.write_prg_byte(0x8000, 2).unwrap();
    assert_eq!(2, m.read_prg_byte(0x8000).unwrap());
    assert_eq!(3, m.read_prg_byte(0xC000).unwrap());
}

#[test]
fn test_mapper2_register_masks_to_four_bits() {
    let mut m = Mapper2::new(cartridge(4, 1, Mirroring::Horizontal));
    m.write_prg_byte(0xFFFF, 0x12).unwrap();
    assert_eq!(2, m.read_prg_byte(0x8000).unwrap());
    assert_eq!(2, m.read_prg_byte(0xBFFF).unwrap());
}

#[test]
fn test_mapper2_chr_ram_round_trip() {
    let mut m = Mapper2::new(cartridge(2, 0, Mirroring::Horizontal));
    m.write_chr_byte(0x123, 7).unwrap();
    assert_eq!(7, m.read_chr_byte(0x123).unwrap());
}

#[test]
fn test_mapper2_chr_rom_write_discarded() {
    let mut m = Mapper2::new(cartridge(2, 1, Mirroring::Horizontal));
    m.write_chr_byte(0x10, 7).unwrap();
    assert_eq!(0, m.read_chr_byte(0x10).unwrap());
}

#[test]
fn test_mapper2_address_fault() {
    let mut m = Mapper2::new(cartridge(2, 1, Mirroring::Horizontal));
    assert_eq!(Err(Fault::AddressFault), m.read_prg_byte(0x7FFF));
    assert_eq!(Err(Fault::AddressFault), m.write_prg_byte(0x4000, 1));
    assert_eq!(Err(Fault::AddressFault), m.read_chr_byte(0x2000));
    assert_eq!(Err(Fault::AddressFault), m.write_chr_byte(0x3000, 1));
}

#[test]
fn test_mapper2_mirroring() {
    let m = Mapper2::new(cartridge(2, 1, Mirroring::Vertical));
    assert_eq!(Mirroring::Vertical, m.mirroring());
}

#[test]
fn test_mapper2_malformed_image() {
    let data = CartridgeData {
        prg_rom: Pager::new(vec![0u8; 1000]),
        chr_rom: Pager::new(vec![0u8; 0x2000]),
        chr_ram: Pager::new(vec![0u8; 0x2000]),
        header: Header {
            mirroring: Mirroring::Horizontal,
            chr_rom_pages: 1,
        },
    };
    let m = Mapper2::new(data);
    assert_eq!(Err(Fault::MalformedImageFault), m.read_prg_byte(0x8000));
}

#[test]
fn test_mapper3_prg_windows_fixed() {
    let mut m = Mapper3::new(cartridge(4, 2, Mirroring::Horizontal));
    assert_eq!(0, m.read_prg_byte(0x8000).unwrap());
    assert_eq!(3, m.read_prg_byte(0xC000).unwrap());
    m.write_prg_byte(0x8000, 1).unwrap();
    assert_eq!(0, m.read_prg_byte(0x8000).unwrap());
    assert_eq!(3, m.read_prg_byte(0xC000).unwrap());
}

#[test]
fn test_mapper3_chr_bank_select() {
    let mut m = Mapper3::new(cartridge(2, 4, Mirroring::Horizontal));
    assert_eq!(0, m.read_chr_byte(0).unwrap());
    m.write_prg_byte(0x8000, 2).unwrap();
    assert_eq!(2, m.read_chr_byte(0).unwrap());
    assert_eq!(2, m.read_chr_byte(0x1FFF).unwrap());
}

#[test]
fn test_mapper3_chr_write_discarded() {
    let mut m = Mapper3::new(cartridge(2, 4, Mirroring::Horizontal));
    m.write_chr_byte(0, 9).unwrap();
    assert_eq!(0, m.read_chr_byte(0).unwrap());
}

#[test]
fn test_mapper3_chr_bank_overflow() {
    let mut m = Mapper3::new(cartridge(2, 4, Mirroring::Horizontal));
    m.write_prg_byte(0x8000, 200).unwrap();
    assert_eq!(Err(Fault::PageBoundsFault), m.read_chr_byte(0));
}

#[test]
fn test_mapper3_address_fault() {
    let mut m = Mapper3::new(cartridge(2, 4, Mirroring::Horizontal));
    assert_eq!(Err(Fault::AddressFault), m.read_prg_byte(0x7FFF));
    assert_eq!(Err(Fault::AddressFault), m.write_prg_byte(0x7FFF, 1));
    assert_eq!(Err(Fault::AddressFault), m.read_chr_byte(0x2000));
    assert_eq!(Err(Fault::AddressFault), m.write_chr_byte(0x2000, 1));
}

#[test]
fn test_mapper3_mirroring() {
    let m = Mapper3::new(cartridge(2, 1, Mirroring::FourScreen));
    assert_eq!(Mirroring::FourScreen, m.mirroring());
}
