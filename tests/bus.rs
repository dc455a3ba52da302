use gib_core::bus::{dispatch, Bus, BusError, MemR, MemRW, MemW};
use gib_core::mem::{MemSize, Memory};

fn bus() -> Bus {
    Bus::new(&[])
}

#[test]
fn sized_values_round_trip_in_a_block() {
    let mut m = Memory::new(16);
    m.write::<u8>(3, 0xAB);
    assert_eq!(m.read::<u8>(3), 0xAB);
    m.write::<i8>(4, -5);
    assert_eq!(m.read::<i8>(4), -5);
    assert_eq!(m.read::<u8>(4), 0xFB);
    m.write::<u16>(8, 0x1234);
    assert_eq!(m.read::<u16>(8), 0x1234);
    assert_eq!(m.read::<u8>(8), 0x34);
    assert_eq!(m.read::<u8>(9), 0x12);
}

#[test]
fn byte_sizes() {
    assert_eq!(<u8 as MemSize>::byte_size(), 1);
    assert_eq!(<i8 as MemSize>::byte_size(), 1);
    assert_eq!(<u16 as MemSize>::byte_size(), 2);
}

#[test]
fn every_window_round_trips() {
    let addrs: [u16; 12] = [
        0x0100, 0x4000, 0x8010, 0x9800, 0x9C00, 0xA000, 0xC000, 0xD000, 0xFE00, 0xFF10, 0xFF40,
        0xFF80,
    ];
    let mut b = bus();
    for a in addrs {
        b.write::<u8>(a, 0x5A).unwrap();
        assert_eq!(b.read::<u8>(a), Ok(0x5A));
        b.write::<i8>(a, -100).unwrap();
        assert_eq!(b.read::<i8>(a), Ok(-100));
        b.write::<u16>(a, 0xBEEF).unwrap();
        assert_eq!(b.read::<u16>(a), Ok(0xBEEF));
        assert_eq!(b.read::<u8>(a), Ok(0xEF));
        assert_eq!(b.read::<u8>(a + 1), Ok(0xBE));
    }
}

#[test]
fn unmapped_addresses_are_refused() {
    let mut b = bus();
    for a in [0xFEA0u16, 0xFF00, 0xFF0F, 0xFF70, 0xFF7F, 0xFFFF] {
        assert_eq!(b.read::<u8>(a), Err(BusError::InvalidAddress(a)));
        assert_eq!(b.write::<u8>(a, 1), Err(BusError::InvalidAddress(a)));
        assert_eq!(dispatch(a), None);
    }
}

#[test]
fn accesses_across_a_window_end_are_refused() {
    let mut b = bus();
    assert_eq!(b.read::<u16>(0xFFFE), Err(BusError::InvalidAddress(0xFFFE)));
    assert_eq!(b.write::<u16>(0x97FF, 7), Err(BusError::InvalidAddress(0x97FF)));
    assert_eq!(b.read::<u16>(0x97FF), Err(BusError::InvalidAddress(0x97FF)));
    assert_eq!(b.read::<u8>(0x97FF), Ok(0));
}

#[test]
fn dispatch_picks_one_window() {
    assert_eq!(dispatch(0x0000), Some(0));
    assert_eq!(dispatch(0x3FFF), Some(0));
    assert_eq!(dispatch(0x4000), Some(1));
    assert_eq!(dispatch(0x9FFF), Some(4));
    assert_eq!(dispatch(0xE000), Some(8));
    assert_eq!(dispatch(0xFDFF), Some(9));
    assert_eq!(dispatch(0xFE9F), Some(10));
    assert_eq!(dispatch(0xFF6F), Some(12));
    assert_eq!(dispatch(0xFFFE), Some(13));
}

#[test]
fn echo_ram_aliases_work_ram() {
    let mut b = bus();
    b.write::<u8>(0xE123, 0x77).unwrap();
    assert_eq!(b.read::<u8>(0xC123), Ok(0x77));
    b.write::<u16>(0xD456, 0xCAFE).unwrap();
    assert_eq!(b.read::<u16>(0xF456), Ok(0xCAFE));
    b.write::<u8>(0xFDFF, 0x11).unwrap();
    assert_eq!(b.read::<u8>(0xDDFF), Ok(0x11));
}

#[test]
fn rom_is_split_into_banks() {
    let mut rom = vec![0u8; 0x8000 + 0x10];
    rom[0] = 1;
    rom[0x3FFF] = 2;
    rom[0x4000] = 3;
    rom[0x7FFF] = 4;
    rom[0x8000] = 5;
    let b = Bus::new(&rom);
    assert_eq!(b.read::<u8>(0x0000), Ok(1));
    assert_eq!(b.read::<u8>(0x3FFF), Ok(2));
    assert_eq!(b.read::<u8>(0x4000), Ok(3));
    assert_eq!(b.read::<u8>(0x7FFF), Ok(4));
    assert_eq!(b.read::<u8>(0xC000), Ok(0));
}

#[test]
fn short_rom_is_zero_padded() {
    let b = Bus::new(&[9, 8, 7]);
    assert_eq!(b.read::<u16>(0x0000), Ok(0x0809));
    assert_eq!(b.read::<u8>(0x0002), Ok(7));
    assert_eq!(b.read::<u8>(0x0003), Ok(0));
    assert_eq!(b.read::<u8>(0x4000), Ok(0));
}

#[test]
fn hsync_advances_and_wraps_the_scanline() {
    let mut b = bus();
    b.hsync();
    assert_eq!(b.read::<u8>(0xFF44), Ok(1));
    b.write::<u8>(0xFF44, 153).unwrap();
    b.hsync();
    assert_eq!(b.read::<u8>(0xFF44), Ok(0));
    b.write::<u8>(0xFF44, 255).unwrap();
    b.hsync();
    assert_eq!(b.read::<u8>(0xFF44), Ok(102));
}

fn swap_words<B: MemRW<u16>>(m: &mut B, a: u16, b: u16) -> Result<(), BusError> {
    let x = MemR::<u16>::read(m, a)?;
    let y = MemR::<u16>::read(m, b)?;
    MemW::<u16>::write(m, a, y)?;
    MemW::<u16>::write(m, b, x)
}

#[test]
fn bus_meets_the_sized_access_traits() {
    let mut b = bus();
    b.write::<u16>(0xC000, 0x1111).unwrap();
    b.write::<u16>(0xFF80, 0x2222).unwrap();
    swap_words(&mut b, 0xC000, 0xFF80).unwrap();
    assert_eq!(b.read::<u16>(0xC000), Ok(0x2222));
    assert_eq!(b.read::<u16>(0xFF80), Ok(0x1111));
    assert_eq!(swap_words(&mut b, 0xC000, 0xFFFF), Err(BusError::InvalidAddress(0xFFFF)));
    assert_eq!(MemW::<u8>::write(&mut b, 0xFF00, 1), Err(BusError::InvalidAddress(0xFF00)));
}

#[test]
fn writes_stay_in_their_region() {
    let mut b = bus();
    b.write::<u16>(0xCFFE, 0xFFFF).unwrap();
    assert_eq!(b.read::<u8>(0xD000), Ok(0));
    assert_eq!(b.read::<u8>(0xCFFD), Ok(0));
    b.write::<u8>(0x9BFF, 0xAA).unwrap();
    assert_eq!(b.read::<u8>(0x9C00), Ok(0));
    assert_eq!(b.read::<u8>(0x97FF), Ok(0));
}
