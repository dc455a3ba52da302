//! The video unit: tile data, background tile maps, sprite attributes and LCD
//! registers, reachable through the bus, and the background rasterizer.

use vstd::prelude::*;
use crate::bus::{fits, local, owner, region_size, window_region, Region};
use crate::mem::{put_bytes, MemSize};

verus! {

/// Width of the screen in pixels.
pub const SCREEN_W: usize = 160;

/// Height of the screen in pixels.
pub const SCREEN_H: usize = 144;

/// Bytes in a frame buffer: three colour channels per pixel.
pub const FRAME_BYTES: usize = 69120;

/// Number of scanlines, the off-screen ones included.
pub const SCANLINES: u8 = 154;

pub open spec fn zeros(n: nat) -> Seq<u8> {
    Seq::new(n, |i: int| 0u8)
}

/// The 2-bit colour of column `x`, row `y` of the tile whose first byte is at
/// `base` in `tiles`: two bit planes, the low one first, the leftmost pixel in
/// the highest bit.
pub open spec fn tile_color(tiles: Seq<u8>, base: int, x: u8, y: u8) -> u8 {
    let lo = tiles[base + 2 * y];
    let hi = tiles[base + 2 * y + 1];
    (((hi >> (7 - x) as u8) & 1u8) << 1u8) | ((lo >> (7 - x) as u8) & 1u8)
}

/// The grey level that palette `bgp` gives colour `c`.
pub open spec fn shade_of(bgp: u8, c: u8) -> u8 {
    let level = (bgp >> (c * 2) as u8) & 3u8;
    if level == 0 {
        0xFF
    } else if level == 1 {
        0xAA
    } else if level == 2 {
        0x55
    } else {
        0x00
    }
}

/// A tile of the tile data table, by its index.
pub struct Tile {
    pub index: usize,
}

impl Tile {
    /// The 2-bit colour of column `x`, row `y` of this tile.
    pub fn pixel(&self, ppu: &PPU, x: u8, y: u8) -> (r: u8)
        requires
            ppu.wf(),
            self.index < 384,
            x < 8,
            y < 8,
        ensures
            r == tile_color(ppu.region(Region::Tiles), 16 * self.index, x, y),
            r < 4,
    {
        let base = self.index * 16;
        let bl = ppu.tdt[base + usize::from(y) * 2];
        let bh = ppu.tdt[base + usize::from(y) * 2 + 1];
        let r = (((bh >> (7 - x)) & 0x1) << 1) | ((bl >> (7 - x)) & 0x1);
        assert(r < 4) by (bit_vector)
            requires r == (((bh >> (7 - x) as u8) & 1u8) << 1u8) | ((bl >> (7 - x) as u8) & 1u8);
        r
    }
}

/// The video unit.
pub struct PPU {
    /// Tile data table: 384 tiles of 16 bytes.
    tdt: Vec<u8>,
    /// Object attribute memory: 40 sprites of 4 bytes.
    oam: Vec<u8>,
    /// Background tile map 0.
    bgtm0: Vec<u8>,
    /// Background tile map 1.
    bgtm1: Vec<u8>,
    /// LCD registers.
    regs: Vec<u8>,
}

impl PPU {
    /// The bytes of region `r` held by the video unit.
    pub closed spec fn region(&self, r: Region) -> Seq<u8> {
        match r {
            Region::Tiles => self.tdt@,
            Region::Map0 => self.bgtm0@,
            Region::Map1 => self.bgtm1@,
            Region::Oam => self.oam@,
            Region::Lcd => self.regs@,
            _ => Seq::empty(),
        }
    }

    pub open spec fn owns(r: Region) -> bool {
        r == Region::Tiles || r == Region::Map0 || r == Region::Map1 || r == Region::Oam || r
            == Region::Lcd
    }

    pub closed spec fn wf(&self) -> bool {
        &&& self.tdt@.len() == 0x1800
        &&& self.oam@.len() == 0xA0
        &&& self.bgtm0@.len() == 0x400
        &&& self.bgtm1@.len() == 0x400
        &&& self.regs@.len() == 0x30
    }

    /// Length of the storage behind window `i` of the address space, for the
    /// windows of the video unit.
    pub fn region_len(&self, i: usize) -> (r: usize)
        ensures
            r == self.region(window_region(i as int)).len(),
    {
        if i == 2 {
            self.tdt.len()
        } else if i == 3 {
            self.bgtm0.len()
        } else if i == 4 {
            self.bgtm1.len()
        } else if i == 10 {
            self.oam.len()
        } else if i == 12 {
            self.regs.len()
        } else {
            0
        }
    }

    /// The lengths of the unit's storage.
    pub proof fn lemma_region_lengths(&self)
        requires
            self.wf(),
        ensures
            self.region(Region::Tiles).len() == 0x1800,
            self.region(Region::Map0).len() == 0x400,
            self.region(Region::Map1).len() == 0x400,
            self.region(Region::Oam).len() == 0xA0,
            self.region(Region::Lcd).len() == 0x30,
            forall|r: Region| Self::owns(r) ==> #[trigger] self.region(r).len() == region_size(r),
    {
    }

    pub open spec fn reg(&self, i: int) -> u8 {
        self.region(Region::Lcd)[i]
    }

    pub open spec fn lcdc_spec(&self) -> u8 {
        self.reg(0)
    }

    /// Index in the tile data table of the background tile at position `id`
    /// of the selected tile map.
    pub open spec fn tile_index(&self, id: int) -> int {
        let entry = if self.lcdc_spec() & 0x08 == 0 {
            self.region(Region::Map0)[id]
        } else {
            self.region(Region::Map1)[id]
        };
        if self.lcdc_spec() & 0x10 == 0 {
            128 + (entry as i8) as int
        } else {
            entry as int
        }
    }

    /// The grey level of screen pixel (`px`, `py`) with the display on.
    pub open spec fn screen_shade(&self, px: int, py: int) -> u8 {
        let y = (py + self.reg(2)) % 256;
        let x = (px + self.reg(3)) % 256;
        let t = self.tile_index((y / 8) * 32 + x / 8);
        shade_of(self.reg(7), tile_color(self.region(Region::Tiles), 16 * t, (x % 8) as u8, (y % 8) as u8))
    }

    pub fn new() -> (p: PPU)
        ensures
            p.wf(),
            forall|r: Region| Self::owns(r) ==> #[trigger] p.region(r) == zeros(region_size(r)),
    {
        PPU {
            tdt: zeroed(0x1800),
            oam: zeroed(0xA0),
            bgtm0: zeroed(0x400),
            bgtm1: zeroed(0x400),
            regs: zeroed(0x30),
        }
    }

    /// Draws the background layer into `vbuf`, three equal bytes per pixel, row
    /// by row; with the display off the whole buffer is set to the lightest shade.
    pub fn rasterize(&self, vbuf: &mut Vec<u8>)
        requires
            self.wf(),
            self.lcdc_spec() & 0x80 != 0 ==> old(vbuf)@.len() >= FRAME_BYTES,
        ensures
            final(vbuf)@.len() == old(vbuf)@.len(),
            self.lcdc_spec() & 0x80 == 0 ==> forall|i: int|
                0 <= i < final(vbuf)@.len() ==> #[trigger] final(vbuf)@[i] == 0xFF,
            self.lcdc_spec() & 0x80 != 0 ==> forall|i: int|
                0 <= i < FRAME_BYTES ==> #[trigger] final(vbuf)@[i] == self.screen_shade(
                    (i / 3) % 160,
                    (i / 3) / 160,
                ),
            self.lcdc_spec() & 0x80 != 0 ==> forall|i: int|
                FRAME_BYTES <= i < final(vbuf)@.len() ==> #[trigger] final(vbuf)@[i] == old(
                    vbuf,
                )@[i],
    {
        let n = vbuf.len();
        if (self.lcdc() & 0x80) == 0 {
            let mut i: usize = 0;
            while i < n
                invariant
                    i <= n,
                    n == vbuf@.len(),
                    forall|j: int| 0 <= j < i ==> #[trigger] vbuf@[j] == 0xFF,
                decreases n - i,
            {
                vbuf.set(i, 0xFF);
                i = i + 1;
            }
        } else {
            let mut p: usize = 0;
            while p < SCREEN_W * SCREEN_H
                invariant
                    self.wf(),
                    p <= SCREEN_W * SCREEN_H,
                    n == vbuf@.len(),
                    n >= FRAME_BYTES,
                    forall|j: int|
                        0 <= j < 3 * p ==> #[trigger] vbuf@[j] == self.screen_shade(
                            (j / 3) % 160,
                            (j / 3) / 160,
                        ),
                    forall|j: int| FRAME_BYTES <= j < n ==> #[trigger] vbuf@[j] == old(vbuf)@[j],
                decreases SCREEN_W * SCREEN_H - p,
            {
                let py = p / SCREEN_W;
                let px = p % SCREEN_W;
                let y = (py + usize::from(self.scroll_y())) % 256;
                let x = (px + usize::from(self.scroll_x())) % 256;
                let t = self.bg_tile((y / 8) * 32 + x / 8);
                let c = t.pixel(self, (x % 8) as u8, (y % 8) as u8);
                let shade = self.shade(c);
                let pid = 3 * p;
                vbuf.set(pid, shade);
                vbuf.set(pid + 1, shade);
                vbuf.set(pid + 2, shade);
                assert forall|j: int| 3 * p <= j < 3 * p + 3 implies #[trigger] (j / 3) == p by {
                    assert(j / 3 == p) by (nonlinear_arith)
                        requires 3 * p <= j < 3 * p + 3;
                }
                p = p + 1;
            }
        }
    }

    /// Advances the scanline counter, wrapping after the last scanline.
    pub fn hsync(&mut self)
        requires
            old(self).wf(),
        ensures
            final(self).wf(),
            final(self).reg(4) == (old(self).reg(4) + 1) % 154,
            final(self).region(Region::Lcd) == old(self).region(Region::Lcd).update(
                4,
                final(self).reg(4),
            ),
            forall|r: Region| r != Region::Lcd ==> #[trigger] final(self).region(r) == old(
                self,
            ).region(r),
    {
        let ly = ((self.regs[4] as u16 + 1) % (SCANLINES as u16)) as u8;
        self.regs[4] = ly;
    }

    /// Reads the value stored at offset `idx` of the LCD registers.
    pub fn io_read<T: MemSize>(&self, idx: u16) -> (r: T)
        requires
            idx + T::width() <= self.region(Region::Lcd).len(),
        ensures
            r == T::from_le(self.region(Region::Lcd).subrange(idx as int, idx + T::width())),
    {
        T::read_le(self.regs.as_slice(), idx as usize)
    }

    /// Stores `v` at offset `idx` of the LCD registers.
    pub fn io_write<T: MemSize>(&mut self, idx: u16, v: T)
        requires
            idx + T::width() <= old(self).region(Region::Lcd).len(),
        ensures
            old(self).wf() ==> final(self).wf(),
            final(self).region(Region::Lcd) == put_bytes(
                old(self).region(Region::Lcd),
                idx as int,
                T::to_le(v),
            ),
            forall|r: Region| r != Region::Lcd ==> #[trigger] final(self).region(r) == old(
                self,
            ).region(r),
    {
        T::write_le(&mut self.regs, idx as usize, v);
    }

    pub fn lcdc(&self) -> (r: u8)
        requires
            self.wf(),
        ensures
            r == self.reg(0),
    {
        self.regs[0x00]
    }

    pub fn bgp(&self) -> (r: u8)
        requires
            self.wf(),
        ensures
            r == self.reg(7),
    {
        self.regs[0x07]
    }

    pub fn scroll_x(&self) -> (r: u8)
        requires
            self.wf(),
        ensures
            r == self.reg(3),
    {
        self.regs[0x03]
    }

    pub fn scroll_y(&self) -> (r: u8)
        requires
            self.wf(),
        ensures
            r == self.reg(2),
    {
        self.regs[0x02]
    }

    /// The grey level that the background palette gives colour `color`.
    pub fn shade(&self, color: u8) -> (r: u8)
        requires
            self.wf(),
            color < 4,
        ensures
            r == shade_of(self.reg(7), color),
    {
        match (self.bgp() >> (color * 2)) & 0x3 {
            0 => 0xFF,
            1 => 0xAA,
            2 => 0x55,
            _ => 0x00,
        }
    }

    /// The background tile at position `id` of the selected tile map.
    pub fn bg_tile(&self, id: usize) -> (t: Tile)
        requires
            self.wf(),
            id < 1024,
        ensures
            t.index as int == self.tile_index(id as int),
            t.index < 384,
    {
        let tile_id = if (self.lcdc() & 0x08) == 0 {
            self.bgtm0[id]
        } else {
            self.bgtm1[id]
        };
        if (self.lcdc() & 0x10) == 0 {
            Tile { index: (128 + i32::from(tile_id as i8)) as usize }
        } else {
            Tile { index: usize::from(tile_id) }
        }
    }

    /// Reads the value stored at bus address `addr`, in one of the unit's windows.
    pub fn read<T: MemSize>(&self, addr: u16) -> (r: T)
        requires
            fits(addr, T::width()),
            Self::owns(window_region(owner(addr))),
            local(addr) + T::width() <= self.region(window_region(owner(addr))).len(),
        ensures
            r == T::from_le(
                self.region(window_region(owner(addr))).subrange(
                    local(addr),
                    local(addr) + T::width(),
                ),
            ),
    {
        if addr <= 0x97FF {
            T::read_le(self.tdt.as_slice(), (addr - 0x8000) as usize)
        } else if addr <= 0x9BFF {
            T::read_le(self.bgtm0.as_slice(), (addr - 0x9800) as usize)
        } else if addr <= 0x9FFF {
            T::read_le(self.bgtm1.as_slice(), (addr - 0x9C00) as usize)
        } else if addr <= 0xFE9F {
            T::read_le(self.oam.as_slice(), (addr - 0xFE00) as usize)
        } else {
            self.io_read(addr - 0xFF40)
        }
    }

    /// Stores `val` at bus address `addr`, in one of the unit's windows.
    pub fn write<T: MemSize>(&mut self, addr: u16, val: T)
        requires
            fits(addr, T::width()),
            Self::owns(window_region(owner(addr))),
            local(addr) + T::width() <= old(self).region(window_region(owner(addr))).len(),
        ensures
            old(self).wf() ==> final(self).wf(),
            final(self).region(window_region(owner(addr))) == put_bytes(
                old(self).region(window_region(owner(addr))),
                local(addr),
                T::to_le(val),
            ),
            forall|r: Region| r != window_region(owner(addr)) ==> #[trigger] final(self).region(r)
                == old(self).region(r),
    {
        if addr <= 0x97FF {
            T::write_le(&mut self.tdt, (addr - 0x8000) as usize, val);
        } else if addr <= 0x9BFF {
            T::write_le(&mut self.bgtm0, (addr - 0x9800) as usize, val);
        } else if addr <= 0x9FFF {
            T::write_le(&mut self.bgtm1, (addr - 0x9C00) as usize, val);
        } else if addr <= 0xFE9F {
            T::write_le(&mut self.oam, (addr - 0xFE00) as usize, val);
        } else {
            self.io_write(addr - 0xFF40, val);
        }
    }
}

/// A zero-filled byte vector of length `n`.
pub fn zeroed(n: usize) -> (v: Vec<u8>)
    ensures
        v@ == zeros(n as nat),
{
    let mut v: Vec<u8> = Vec::new();
    let mut i: usize = 0;
    while i < n
        invariant
            i <= n,
            v@ == zeros(i as nat),
        decreases n - i,
    {
        v.push(0);
        i = i + 1;
        assert(v@ =~= zeros(i as nat));
    }
    v
}

} // verus!
