use gib_core::bus::Bus;
use gib_core::video::{Tile, FRAME_BYTES, PPU};

#[test]
fn display_off_blanks_the_whole_buffer() {
    let mut b = Bus::new(&[]);
    for a in 0x8000u16..0x8100 {
        b.write::<u8>(a, 0xFF).unwrap();
    }
    b.write::<u8>(0xFF47, 0xE4).unwrap();
    b.write::<u8>(0xFF40, 0x11).unwrap();
    let mut vbuf = vec![0x12u8; FRAME_BYTES + 7];
    b.ppu().rasterize(&mut vbuf);
    assert!(vbuf.iter().all(|&x| x == 0xFF));
}

#[test]
fn rasterize_draws_tiles_through_the_palette() {
    let mut b = Bus::new(&[]);
    // Tile 1: every pixel of colour 3 in row 0, colour 1 in row 1.
    b.write::<u8>(0x8010, 0xFF).unwrap();
    b.write::<u8>(0x8011, 0xFF).unwrap();
    b.write::<u8>(0x8012, 0xFF).unwrap();
    // Map entry 0 of map 0 selects tile 1 (unsigned indexing).
    b.write::<u8>(0x9800, 1).unwrap();
    b.write::<u8>(0xFF47, 0xE4).unwrap();
    b.write::<u8>(0xFF40, 0x91).unwrap();
    let mut vbuf = vec![0u8; FRAME_BYTES + 3];
    b.ppu().rasterize(&mut vbuf);
    assert_eq!(&vbuf[0..3], &[0x00, 0x00, 0x00]);
    // Row 1 starts 160 pixels in.
    assert_eq!(&vbuf[480..483], &[0xAA, 0xAA, 0xAA]);
    // Row 2 of tile 1 is colour 0; pixel (8, 0) is in tile 0, colour 0.
    assert_eq!(&vbuf[960..963], &[0xFF, 0xFF, 0xFF]);
    assert_eq!(&vbuf[24..27], &[0xFF, 0xFF, 0xFF]);
    assert_eq!(&vbuf[FRAME_BYTES..], &[0, 0, 0]);
}

#[test]
fn scrolling_moves_the_background() {
    let mut b = Bus::new(&[]);
    b.write::<u8>(0x8010, 0xFF).unwrap();
    b.write::<u8>(0x8011, 0xFF).unwrap();
    b.write::<u8>(0x9801, 1).unwrap();
    b.write::<u8>(0xFF47, 0xE4).unwrap();
    b.write::<u8>(0xFF40, 0x91).unwrap();
    b.write::<u8>(0xFF43, 8).unwrap();
    let mut vbuf = vec![0u8; FRAME_BYTES];
    b.ppu().rasterize(&mut vbuf);
    assert_eq!(vbuf[0], 0x00);
    assert_eq!(vbuf[3 * 8], 0xFF);
}

#[test]
fn signed_tile_indexing() {
    let mut b = Bus::new(&[]);
    // With LCDC bit 4 clear, map entry 0 is tile 128, entry 0x80 is tile 0.
    b.write::<u8>(0x9800, 0x80).unwrap();
    b.write::<u8>(0x9801, 0x00).unwrap();
    b.write::<u8>(0xFF40, 0x80).unwrap();
    let ppu = b.ppu();
    assert_eq!(ppu.bg_tile(0).index, 0);
    assert_eq!(ppu.bg_tile(1).index, 128);
}

#[test]
fn tile_map_one_is_selected_by_lcdc_bit_three() {
    let mut b = Bus::new(&[]);
    b.write::<u8>(0x9800, 5).unwrap();
    b.write::<u8>(0x9C00, 9).unwrap();
    b.write::<u8>(0xFF40, 0x18).unwrap();
    assert_eq!(b.ppu().bg_tile(0).index, 9);
    b.write::<u8>(0xFF40, 0x10).unwrap();
    assert_eq!(b.ppu().bg_tile(0).index, 5);
}

#[test]
fn tile_pixel_combines_two_planes() {
    let mut b = Bus::new(&[]);
    // Row 3 of tile 2: low plane 0b1010_0000, high plane 0b1100_0000.
    b.write::<u8>(0x8020 + 6, 0xA0).unwrap();
    b.write::<u8>(0x8020 + 7, 0xC0).unwrap();
    let t = Tile { index: 2 };
    assert_eq!(t.pixel(b.ppu(), 0, 3), 3);
    assert_eq!(t.pixel(b.ppu(), 1, 3), 2);
    assert_eq!(t.pixel(b.ppu(), 2, 3), 1);
    assert_eq!(t.pixel(b.ppu(), 3, 3), 0);
}

#[test]
fn palette_shades() {
    let mut b = Bus::new(&[]);
    b.write::<u8>(0xFF47, 0b0001_1011).unwrap();
    let ppu = b.ppu();
    assert_eq!(ppu.shade(0), 0x00);
    assert_eq!(ppu.shade(1), 0x55);
    assert_eq!(ppu.shade(2), 0xAA);
    assert_eq!(ppu.shade(3), 0xFF);
}

#[test]
fn registers_read_back() {
    let mut p = PPU::new();
    p.io_write::<u8>(0x02, 7);
    p.io_write::<u8>(0x03, 9);
    p.io_write::<u16>(0x06, 0x4321);
    assert_eq!(p.scroll_y(), 7);
    assert_eq!(p.scroll_x(), 9);
    assert_eq!(p.bgp(), 0x43);
    assert_eq!(p.io_read::<u16>(0x06), 0x4321);
    assert_eq!(p.lcdc(), 0);
    p.write::<u8>(0xFE9F, 3);
    assert_eq!(p.read::<u8>(0xFE9F), 3);
    p.hsync();
    assert_eq!(p.io_read::<u8>(0x04), 1);
}

#[test]
fn display_off_blanks_a_buffer_of_any_length() {
    let p = PPU::new();
    let mut vbuf = vec![0x33u8; 10];
    p.rasterize(&mut vbuf);
    assert_eq!(vbuf, vec![0xFF; 10]);
}
