use console_memory::bus::Bus;
use console_memory::cartridge::make_cartridge;
use console_memory::internal_memory::InternalMemory;
use console_memory::memory_device::{MemoryError, ReadWrite};

fn bus_image(len: usize, kind: u8, ram: u8) -> Vec<u8> {
    let mut image: Vec<u8> = (0..len).map(|i| ((i % 249) as u8) ^ ((i / 0x4000) as u8)).collect();
    for i in 0x134..0x150 {
        image[i] = 0;
    }
    image[0x134] = b'B';
    image[0x147] = kind;
    image[0x149] = ram;
    image
}

#[test]
fn no_address_is_claimed_twice() {
    let internal = InternalMemory::new();
    for kind in [0x00u8, 0x03] {
        let cartridge = make_cartridge(bus_image(0x8000, kind, 0x02)).unwrap();
        let bus = Bus::new(make_cartridge(bus_image(0x8000, kind, 0x02)).unwrap());
        for address in 0..=0x1_0000usize {
            let by_cartridge = cartridge.contains(address);
            let by_internal = internal.contains(address);
            assert!(!(by_cartridge && by_internal));
            assert_eq!(bus.contains(address), by_cartridge || by_internal);
        }
    }
}

#[test]
fn bus_routes_by_address() {
    let image = bus_image(0x10000, 0x03, 0x02);
    let mut bus = Bus::new(make_cartridge(image.clone()).unwrap());
    assert_eq!(bus.read_byte(0x0100), Ok(image[0x0100]));
    assert_eq!(bus.write_byte(0x2000, 0x03), Ok(()));
    assert_eq!(bus.read_byte(0x4000), Ok(image[3 * 0x4000]));
    assert_eq!(bus.write_byte(0x0000, 0x0A), Ok(()));
    assert_eq!(bus.write_byte(0xA000, 0x42), Ok(()));
    assert_eq!(bus.read_byte(0xA000), Ok(0x42));
    assert_eq!(bus.write_byte(0xC000, 0x11), Ok(()));
    assert_eq!(bus.read_byte(0xC000), Ok(0x11));
    assert_eq!(bus.write_byte(0xFFFF, 0x1F), Ok(()));
    assert_eq!(bus.read_byte(0xFFFF), Ok(0x1F));
    assert_eq!(bus.write_byte(0xFF07, 0x05), Ok(()));
    assert_eq!(bus.read_byte(0xFF07), Ok(0x05));
    assert_eq!(bus.read_byte(0xA000), Ok(0x42));
}

#[test]
fn bus_refuses_what_no_device_claims() {
    let mut bus = Bus::new(make_cartridge(bus_image(0x8000, 0x00, 0x00)).unwrap());
    for address in [0x8000usize, 0x9FFF, 0xA000, 0xE000, 0xFEA0, 0x10000] {
        assert!(!bus.contains(address));
        assert_eq!(bus.read_byte(address), Err(MemoryError::InvalidAddress));
        assert_eq!(bus.read_word(address), Err(MemoryError::InvalidAddress));
        assert_eq!(bus.write_byte(address, 1), Err(MemoryError::InvalidAddress));
        assert_eq!(bus.write_word(address, 1), Err(MemoryError::InvalidAddress));
    }
}

#[test]
fn bus_reports_writes_to_read_only_rom() {
    let image = bus_image(0x8000, 0x00, 0x00);
    let mut bus = Bus::new(make_cartridge(image.clone()).unwrap());
    assert_eq!(bus.write_byte(0x0100, 0x00), Err(MemoryError::InvalidOperation));
    assert_eq!(bus.write_word(0x7FFE, 0x0000), Err(MemoryError::InvalidOperation));
    assert_eq!(bus.read_byte(0x0100), Ok(image[0x0100]));
}

#[test]
fn bus_words_round_trip_in_ram() {
    let mut bus = Bus::new(make_cartridge(bus_image(0x8000, 0x03, 0x02)).unwrap());
    assert_eq!(bus.write_byte(0x0000, 0x0A), Ok(()));
    for (address, value) in
        [(0xA100usize, 0xCAFEu16), (0xC100, 0xBEEF), (0xD100, 0x1234), (0xFF90, 0x55AA)]
    {
        assert_eq!(bus.write_word(address, value), Ok(()));
        assert_eq!(bus.read_word(address), Ok(value));
    }
    assert_eq!(bus.write_word(0xDFFF, 0x0101), Err(MemoryError::InvalidAddress));
}
