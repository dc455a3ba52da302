//! The address space: a fixed partition of the 16-bit range into windows, each
//! owned by one memory block or by the video unit, and the bus that routes
//! sized accesses through it.

use vstd::prelude::*;
use crate::mem::{image_block, lemma_put_then_get, put_bytes, MemSize, Memory};
use crate::video::zeros;
use crate::video::PPU;

verus! {

/// The storage areas that the windows of the address space lead to.
#[derive(Debug, Clone, Copy, PartialEq, Eq, Structural)]
pub enum Region {
    Rom0,
    RomN,
    Tiles,
    Map0,
    Map1,
    Eram,
    Wram0,
    WramN,
    Oam,
    Sound,
    Lcd,
    Hram,
}

/// Number of windows in the partition table.
pub const N_WINDOWS: usize = 14;

/// First address of window `i`.
pub open spec fn window_base(i: int) -> int {
    if i == 0 { 0x0000 }
    else if i == 1 { 0x4000 }
    else if i == 2 { 0x8000 }
    else if i == 3 { 0x9800 }
    else if i == 4 { 0x9C00 }
    else if i == 5 { 0xA000 }
    else if i == 6 { 0xC000 }
    else if i == 7 { 0xD000 }
    else if i == 8 { 0xE000 }
    else if i == 9 { 0xF000 }
    else if i == 10 { 0xFE00 }
    else if i == 11 { 0xFF10 }
    else if i == 12 { 0xFF40 }
    else { 0xFF80 }
}

/// Last address of window `i`.
pub open spec fn window_last(i: int) -> int {
    if i == 0 { 0x3FFF }
    else if i == 1 { 0x7FFF }
    else if i == 2 { 0x97FF }
    else if i == 3 { 0x9BFF }
    else if i == 4 { 0x9FFF }
    else if i == 5 { 0xBFFF }
    else if i == 6 { 0xCFFF }
    else if i == 7 { 0xDFFF }
    else if i == 8 { 0xEFFF }
    else if i == 9 { 0xFDFF }
    else if i == 10 { 0xFE9F }
    else if i == 11 { 0xFF3F }
    else if i == 12 { 0xFF6F }
    else { 0xFFFE }
}

/// The storage that window `i` leads to; the two echo windows lead to work RAM.
pub open spec fn window_region(i: int) -> Region {
    if i == 0 { Region::Rom0 }
    else if i == 1 { Region::RomN }
    else if i == 2 { Region::Tiles }
    else if i == 3 { Region::Map0 }
    else if i == 4 { Region::Map1 }
    else if i == 5 { Region::Eram }
    else if i == 6 || i == 8 { Region::Wram0 }
    else if i == 7 || i == 9 { Region::WramN }
    else if i == 10 { Region::Oam }
    else if i == 11 { Region::Sound }
    else if i == 12 { Region::Lcd }
    else { Region::Hram }
}

/// Least number of bytes that the storage behind a region must hold.
pub open spec fn region_size(r: Region) -> nat {
    match r {
        Region::Rom0 => 0x4000,
        Region::RomN => 0x4000,
        Region::Tiles => 0x1800,
        Region::Map0 => 0x400,
        Region::Map1 => 0x400,
        Region::Eram => 0x2000,
        Region::Wram0 => 0x1000,
        Region::WramN => 0x1000,
        Region::Oam => 0xA0,
        Region::Sound => 0x30,
        Region::Lcd => 0x30,
        Region::Hram => 0x7F,
    }
}

pub open spec fn in_window(i: int, addr: int) -> bool {
    0 <= i < N_WINDOWS && window_base(i) <= addr <= window_last(i)
}

/// Index of the window that owns `addr`, or -1 where no window does.
pub open spec fn owner(addr: u16) -> int {
    let a = addr as int;
    if a <= 0x3FFF { 0 }
    else if a <= 0x7FFF { 1 }
    else if a <= 0x97FF { 2 }
    else if a <= 0x9BFF { 3 }
    else if a <= 0x9FFF { 4 }
    else if a <= 0xBFFF { 5 }
    else if a <= 0xCFFF { 6 }
    else if a <= 0xDFFF { 7 }
    else if a <= 0xEFFF { 8 }
    else if a <= 0xFDFF { 9 }
    else if a <= 0xFE9F { 10 }
    else if a < 0xFF10 { -1 }
    else if a <= 0xFF3F { 11 }
    else if a <= 0xFF6F { 12 }
    else if a < 0xFF80 { -1 }
    else if a <= 0xFFFE { 13 }
    else { -1 }
}

/// An access of `width` bytes at `addr` lies inside one window.
pub open spec fn fits(addr: u16, width: nat) -> bool {
    owner(addr) >= 0 && addr + width - 1 <= window_last(owner(addr))
}

/// Offset of `addr` in the storage its window leads to.
pub open spec fn local(addr: u16) -> int {
    addr - window_base(owner(addr))
}

/// Every region holds at least the bytes its windows can reach.
pub open spec fn sizes_ok(m: Map<Region, Seq<u8>>) -> bool {
    forall|r: Region| #[trigger] m.contains_key(r) && m[r].len() >= region_size(r)
}

/// An access of `width` bytes at `addr` lies inside one window and inside the
/// storage that the window leads to.
pub open spec fn reachable(m: Map<Region, Seq<u8>>, addr: u16, width: nat) -> bool {
    fits(addr, width) && local(addr) + width <= m[window_region(owner(addr))].len()
}

/// What reading a `T` at `addr` gives, seen over the contents of every region.
pub open spec fn read_at<T: MemSize>(m: Map<Region, Seq<u8>>, addr: u16) -> Option<T> {
    if reachable(m, addr, T::width()) {
        let r = window_region(owner(addr));
        Some(T::from_le(m[r].subrange(local(addr), local(addr) + T::width())))
    } else {
        None
    }
}

/// The contents of every region after writing `v` at `addr`.
pub open spec fn write_at<T: MemSize>(m: Map<Region, Seq<u8>>, addr: u16, v: T) -> Map<
    Region,
    Seq<u8>,
> {
    if reachable(m, addr, T::width()) {
        let r = window_region(owner(addr));
        m.insert(r, put_bytes(m[r], local(addr), T::to_le(v)))
    } else {
        m
    }
}

/// The bus failed an access.
#[derive(Debug, Clone, Copy, PartialEq, Eq, Structural)]
pub enum BusError {
    /// The access does not lie inside one window of the address space.
    InvalidAddress(u16),
}

/// Finds the window that owns `addr`.
pub fn dispatch(addr: u16) -> (r: Option<usize>)
    ensures
        match r {
            Some(i) => i as int == owner(addr) && i < N_WINDOWS,
            None => owner(addr) == -1,
        },
{
    if addr <= 0x3FFF { Some(0) }
    else if addr <= 0x7FFF { Some(1) }
    else if addr <= 0x97FF { Some(2) }
    else if addr <= 0x9BFF { Some(3) }
    else if addr <= 0x9FFF { Some(4) }
    else if addr <= 0xBFFF { Some(5) }
    else if addr <= 0xCFFF { Some(6) }
    else if addr <= 0xDFFF { Some(7) }
    else if addr <= 0xEFFF { Some(8) }
    else if addr <= 0xFDFF { Some(9) }
    else if addr <= 0xFE9F { Some(10) }
    else if addr < 0xFF10 { None }
    else if addr <= 0xFF3F { Some(11) }
    else if addr <= 0xFF6F { Some(12) }
    else if addr < 0xFF80 { None }
    else if addr <= 0xFFFE { Some(13) }
    else { None }
}

/// First and last address of window `i`.
pub fn window_bounds(i: usize) -> (r: (u16, u16))
    requires
        i < N_WINDOWS,
    ensures
        r.0 as int == window_base(i as int),
        r.1 as int == window_last(i as int),
{
    if i == 0 { (0x0000, 0x3FFF) }
    else if i == 1 { (0x4000, 0x7FFF) }
    else if i == 2 { (0x8000, 0x97FF) }
    else if i == 3 { (0x9800, 0x9BFF) }
    else if i == 4 { (0x9C00, 0x9FFF) }
    else if i == 5 { (0xA000, 0xBFFF) }
    else if i == 6 { (0xC000, 0xCFFF) }
    else if i == 7 { (0xD000, 0xDFFF) }
    else if i == 8 { (0xE000, 0xEFFF) }
    else if i == 9 { (0xF000, 0xFDFF) }
    else if i == 10 { (0xFE00, 0xFE9F) }
    else if i == 11 { (0xFF10, 0xFF3F) }
    else if i == 12 { (0xFF40, 0xFF6F) }
    else { (0xFF80, 0xFFFE) }
}

/// The windows of the address space do not overlap, and an address is owned by
/// a window exactly when it lies inside it: each address has at most one owner,
/// and the unowned addresses are those outside every window.
pub proof fn lemma_partition(addr: u16)
    ensures
        forall|i: int, j: int| in_window(i, addr as int) && in_window(j, addr as int) ==> i == j,
        forall|i: int| in_window(i, addr as int) <==> (i >= 0 && owner(addr) == i),
        owner(addr) == -1 <==> forall|i: int| !in_window(i, addr as int),
{
    let a = addr as int;
    assert forall|i: int| in_window(i, a) <==> (i >= 0 && owner(addr) == i) by {
        if 0 <= i < N_WINDOWS {
            if i == 0 {} else if i == 1 {} else if i == 2 {} else if i == 3 {}
            else if i == 4 {} else if i == 5 {} else if i == 6 {} else if i == 7 {}
            else if i == 8 {} else if i == 9 {} else if i == 10 {} else if i == 11 {}
            else if i == 12 {} else {}
        }
    }
    if owner(addr) >= 0 {
        assert(in_window(owner(addr), a));
    }
}

} // verus!

verus! {

/// Size of a ROM bank.
pub const BANK_SIZE: usize = 0x4000;

/// The bus: owns every memory block and the video unit, and routes each access
/// to the owner of its address.
pub struct Bus {
    rom_00: Memory,
    rom_nn: Memory,
    eram: Memory,
    hram: Memory,
    wram_00: Memory,
    wram_nn: Memory,
    /// Sound registers; the mixer that reads them is outside this library.
    apu: Memory,
    ppu: PPU,
}

/// Bytes that the switchable ROM window holds for `rom`: every bank after the
/// first, one after the other, and at least one bank's worth.
pub open spec fn rom_rest_len(rom_len: int) -> nat {
    if rom_len - BANK_SIZE > BANK_SIZE {
        (rom_len - BANK_SIZE) as nat
    } else {
        BANK_SIZE as nat
    }
}

impl View for Bus {
    type V = Map<Region, Seq<u8>>;

    closed spec fn view(&self) -> Map<Region, Seq<u8>> {
        Map::new(|r: Region| true, |r: Region| self.region(r))
    }
}

impl Bus {
    /// The bytes of region `r`.
    pub closed spec fn region(&self, r: Region) -> Seq<u8> {
        match r {
            Region::Rom0 => self.rom_00@,
            Region::RomN => self.rom_nn@,
            Region::Eram => self.eram@,
            Region::Wram0 => self.wram_00@,
            Region::WramN => self.wram_nn@,
            Region::Sound => self.apu@,
            Region::Hram => self.hram@,
            _ => self.ppu.region(r),
        }
    }

    /// The video unit.
    pub closed spec fn video(&self) -> PPU {
        self.ppu
    }

    /// Splits `rom` into the fixed bank and the switchable banks; every other
    /// block starts zeroed.
    pub fn new(rom: &[u8]) -> (b: Bus)
        ensures
            sizes_ok(b@),
            b.video().wf(),
            b@[Region::Rom0] == image_block(rom@, 0, BANK_SIZE as nat),
            b@[Region::RomN] == image_block(
                rom@,
                BANK_SIZE as int,
                rom_rest_len(rom@.len() as int),
            ),
            forall|r: Region| r != Region::Rom0 && r != Region::RomN ==> #[trigger] b@[r] == zeros(
                region_size(r),
            ),
    {
        let rest = if rom.len() > 2 * BANK_SIZE {
            rom.len() - BANK_SIZE
        } else {
            BANK_SIZE
        };
        let b = Bus {
            rom_00: Memory::with_image(rom, 0, BANK_SIZE),
            rom_nn: Memory::with_image(rom, BANK_SIZE, rest),
            eram: Memory::new(0x2000),
            hram: Memory::new(0x7F),
            wram_00: Memory::new(0x1000),
            wram_nn: Memory::new(0x1000),
            apu: Memory::new(0x30),
            ppu: PPU::new(),
        };
        assert forall|r: Region| r != Region::Rom0 && r != Region::RomN implies #[trigger] b@[r]
            == zeros(region_size(r)) by {
            match r {
                Region::Tiles => {},
                Region::Map0 => {},
                Region::Map1 => {},
                Region::Oam => {},
                Region::Lcd => {},
                _ => {
                    assert(b@[r] =~= zeros(region_size(r)));
                },
            }
        }
        b
    }

    /// The video unit.
    pub fn ppu(&self) -> (p: &PPU)
        ensures
            *p == self.video(),
            forall|r: Region| PPU::owns(r) ==> #[trigger] p.region(r) == self@[r],
    {
        &self.ppu
    }

    /// Advances the video unit's scanline counter.
    pub fn hsync(&mut self)
        requires
            old(self).video().wf(),
        ensures
            final(self).video().wf(),
            final(self)@ == old(self)@.insert(
                Region::Lcd,
                old(self)@[Region::Lcd].update(4, ((old(self)@[Region::Lcd][4] + 1) % 154) as u8),
            ),
    {
        self.ppu.hsync();
        assert(self@ =~= old(self)@.insert(
            Region::Lcd,
            old(self)@[Region::Lcd].update(4, ((old(self)@[Region::Lcd][4] + 1) % 154) as u8),
        ));
    }

    /// Length of the storage behind window `i`.
    fn region_len(&self, i: usize) -> (r: usize)
        requires
            i < N_WINDOWS,
        ensures
            r == self@[window_region(i as int)].len(),
    {
        if i == 0 {
            self.rom_00.size()
        } else if i == 1 {
            self.rom_nn.size()
        } else if i == 5 {
            self.eram.size()
        } else if i == 6 || i == 8 {
            self.wram_00.size()
        } else if i == 7 || i == 9 {
            self.wram_nn.size()
        } else if i == 11 {
            self.apu.size()
        } else if i == 13 {
            self.hram.size()
        } else {
            self.ppu.region_len(i)
        }
    }

    /// The window that owns `addr` and the offset of `addr` in its storage,
    /// where an access of `width` bytes there is reachable.
    fn locate(&self, addr: u16, width: u8) -> (r: Option<(usize, u16)>)
        requires
            1 <= width <= 2,
        ensures
            match r {
                Some((i, off)) => reachable(self@, addr, width as nat) && i as int == owner(addr)
                    && off as int == local(addr),
                None => !reachable(self@, addr, width as nat),
            },
    {
        match dispatch(addr) {
            None => None,
            Some(i) => {
                let (base, last) = window_bounds(i);
                if addr as u32 + width as u32 - 1 > last as u32 {
                    return None;
                }
                let off = addr - base;
                if off as usize + width as usize > self.region_len(i) {
                    return None;
                }
                Some((i, off))
            },
        }
    }

    /// Reads a `T` at `addr`; fails where the access does not lie inside one
    /// window of the address space.
    pub fn read<T: MemSize>(&self, addr: u16) -> (r: Result<T, BusError>)
        ensures
            match r {
                Ok(v) => read_at::<T>(self@, addr) == Some(v),
                Err(e) => read_at::<T>(self@, addr) is None && e == BusError::InvalidAddress(addr),
            },
    {
        match self.locate(addr, T::byte_size()) {
            None => Err(BusError::InvalidAddress(addr)),
            Some((i, off)) => {
                let v = if i == 0 {
                    self.rom_00.read(off)
                } else if i == 1 {
                    self.rom_nn.read(off)
                } else if i == 5 {
                    self.eram.read(off)
                } else if i == 6 || i == 8 {
                    self.wram_00.read(off)
                } else if i == 7 || i == 9 {
                    self.wram_nn.read(off)
                } else if i == 11 {
                    self.apu.read(off)
                } else if i == 13 {
                    self.hram.read(off)
                } else {
                    self.ppu.read(addr)
                };
                Ok(v)
            },
        }
    }

    /// Writes `val` at `addr`; fails, changing nothing, where the access does
    /// not lie inside one window of the address space.
    pub fn write<T: MemSize>(&mut self, addr: u16, val: T) -> (r: Result<(), BusError>)
        ensures
            final(self)@ == write_at::<T>(old(self)@, addr, val),
            old(self).video().wf() ==> final(self).video().wf(),
            r is Ok <==> reachable(old(self)@, addr, T::width()),
            r is Err ==> r == Err::<(), BusError>(BusError::InvalidAddress(addr)),
    {
        match self.locate(addr, T::byte_size()) {
            None => Err(BusError::InvalidAddress(addr)),
            Some((i, off)) => {
                proof {
                    T::lemma_encode_decode(val);
                }
                if i == 0 {
                    self.rom_00.write(off, val);
                } else if i == 1 {
                    self.rom_nn.write(off, val);
                } else if i == 5 {
                    self.eram.write(off, val);
                } else if i == 6 || i == 8 {
                    self.wram_00.write(off, val);
                } else if i == 7 || i == 9 {
                    self.wram_nn.write(off, val);
                } else if i == 11 {
                    self.apu.write(off, val);
                } else if i == 13 {
                    self.hram.write(off, val);
                } else {
                    self.ppu.write(addr, val);
                }
                assert(self@ =~= write_at::<T>(old(self)@, addr, val));
                Ok(())
            },
        }
    }
}

/// Sized reads by address.
pub trait MemR<T: MemSize> {
    /// What a read of a `T` at `addr` gives; `None` where it fails.
    spec fn peek(&self, addr: u16) -> Option<T>;

    fn read(&self, addr: u16) -> (r: Result<T, BusError>)
        ensures
            match r {
                Ok(v) => self.peek(addr) == Some(v),
                Err(e) => self.peek(addr) is None && e == BusError::InvalidAddress(addr),
            },
    ;
}

/// Sized writes by address.
pub trait MemW<T: MemSize> {
    /// A write of `val` at `addr` is carried out.
    spec fn accepts(&self, addr: u16) -> bool;

    /// `after` is `self` with `val` written at `addr`, or `self` unchanged
    /// where the write is refused.
    spec fn written(&self, after: &Self, addr: u16, val: T) -> bool;

    fn write(&mut self, addr: u16, val: T) -> (r: Result<(), BusError>)
        ensures
            old(self).written(final(self), addr, val),
            r is Ok <==> old(self).accepts(addr),
            r is Err ==> r == Err::<(), BusError>(BusError::InvalidAddress(addr)),
    ;
}

/// Sized reads and writes by address.
pub trait MemRW<T: MemSize>: MemR<T> + MemW<T> {

}

impl<T: MemSize> MemR<T> for Bus {
    open spec fn peek(&self, addr: u16) -> Option<T> {
        read_at::<T>(self@, addr)
    }

    fn read(&self, addr: u16) -> (r: Result<T, BusError>) {
        Bus::read::<T>(self, addr)
    }
}

impl<T: MemSize> MemW<T> for Bus {
    open spec fn accepts(&self, addr: u16) -> bool {
        reachable(self@, addr, T::width())
    }

    open spec fn written(&self, after: &Bus, addr: u16, val: T) -> bool {
        after@ == write_at::<T>(self@, addr, val)
    }

    fn write(&mut self, addr: u16, val: T) -> (r: Result<(), BusError>) {
        Bus::write::<T>(self, addr, val)
    }
}

impl<T: MemSize> MemRW<T> for Bus {

}

/// Writing a value at an address and reading the same width back there gives
/// the value, in every window of the address space.
pub proof fn lemma_write_then_read<T: MemSize>(m: Map<Region, Seq<u8>>, addr: u16, v: T)
    requires
        sizes_ok(m),
        fits(addr, T::width()),
    ensures
        read_at::<T>(write_at::<T>(m, addr, v), addr) == Some(v),
{
    let r = window_region(owner(addr));
    assert(m.contains_key(r));
    lemma_window_in_region(addr, T::width());
    lemma_put_then_get::<T>(m[r], local(addr), v);
}

/// A write leaves every other region as it was: reads through windows that
/// lead elsewhere give what they gave before.
pub proof fn lemma_write_elsewhere<T: MemSize, U: MemSize>(
    m: Map<Region, Seq<u8>>,
    addr: u16,
    v: T,
    other: u16,
)
    requires
        owner(other) >= 0,
        owner(addr) >= 0,
        window_region(owner(other)) != window_region(owner(addr)),
    ensures
        read_at::<U>(write_at::<T>(m, addr, v), other) == read_at::<U>(m, other),
{
}

/// Each echo window shows the work-RAM bank 0x2000 below it: a write through
/// either address is read back through the other.
pub proof fn lemma_echo_alias<T: MemSize>(m: Map<Region, Seq<u8>>, addr: u16, v: T)
    requires
        sizes_ok(m),
        0xE000 <= addr <= 0xFDFF,
        fits(addr, T::width()),
    ensures
        fits((addr - 0x2000) as u16, T::width()),
        read_at::<T>(write_at::<T>(m, addr, v), (addr - 0x2000) as u16) == Some(v),
        read_at::<T>(write_at::<T>(m, (addr - 0x2000) as u16, v), addr) == Some(v),
{
    let prim = (addr - 0x2000) as u16;
    assert(window_region(owner(prim)) == window_region(owner(addr)));
    assert(local(prim) == local(addr));
    lemma_write_then_read::<T>(m, addr, v);
    lemma_write_then_read::<T>(m, prim, v);
}

/// An access that fits in a window stays inside the storage of its region.
proof fn lemma_window_in_region(addr: u16, width: nat)
    requires
        fits(addr, width),
    ensures
        0 <= local(addr),
        local(addr) + width <= region_size(window_region(owner(addr))),
{
}

} // verus!
