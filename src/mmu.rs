//! The memory-management unit: every addressable array, the interrupt
//! registers, the joypad latch and the tileset cache derived from VRAM.
use vstd::prelude::*;

verus! {

pub const ROM_BANK_SIZE: usize = 0x4000;
pub const RAM_SIZE: usize = 0x2000;
pub const OAM_SIZE: usize = 0x100;
pub const IO_SIZE: usize = 0x100;
pub const HRAM_SIZE: usize = 0x80;
pub const TILE_COUNT: usize = 384;
pub const TILESET_SIZE: usize = 24576;
/// Number of bytes that one OAM DMA transfer copies.
pub const DMA_LENGTH: u16 = 160;

/// The abstract contents of the memory unit.
pub ghost struct MmuState {
    pub rom0: Seq<u8>,
    pub rom1: Seq<u8>,
    pub vram: Seq<u8>,
    pub cart_ram: Seq<u8>,
    pub work_ram: Seq<u8>,
    pub oam: Seq<u8>,
    pub io: Seq<u8>,
    pub hram: Seq<u8>,
    pub interrupt_flags: u8,
    pub interrupt_enable: u8,
    pub joyp_select: u8,
    pub buttons: u8,
    pub dpad: u8,
    pub bg_palette: Seq<u8>,
}

/// Shade for each of the four 2-bit palette indices.
pub open spec fn shade(idx: u8) -> u8 {
    if idx == 0 {
        255
    } else if idx == 1 {
        192
    } else if idx == 2 {
        196
    } else {
        0
    }
}

/// Background palette entry `i` as selected by the BGP register value `v`.
pub open spec fn palette_entry(v: u8, i: u8) -> u8 {
    shade((v >> ((2 * i) as u8)) & 3)
}

pub open spec fn palette_of(v: u8) -> Seq<u8> {
    Seq::new(4, |i: int| palette_entry(v, i as u8))
}

/// Value read at `FF00`: the selected button group (1 = released) in the
/// low nibble, the column-select bits, and the unused top bits set.
pub open spec fn joyp_value(select: u8, buttons: u8, dpad: u8) -> u8 {
    let group: u8 = if select & 0x10 == 0 {
        dpad & 0x0F
    } else if select & 0x20 == 0 {
        buttons & 0x0F
    } else {
        0x0F
    };
    0xC0 | (select & 0x30) | group
}

/// Palette index of one pixel from the two bit planes of a tile row; `shift`
/// is `7 - x` for pixel column `x`.
pub open spec fn pixel_color(lo: u8, hi: u8, shift: u8) -> u8 {
    (((lo >> shift) & 1) + 2 * ((hi >> shift) & 1)) as u8
}

/// Entry `i` of the tileset cache (laid out tile by tile, row by row, eight
/// pixels a row) as a function of VRAM alone.
pub open spec fn tile_pixel_of(vram: Seq<u8>, i: int) -> u8 {
    pixel_color(vram[2 * (i / 8)], vram[2 * (i / 8) + 1], (7 - i % 8) as u8)
}

pub open spec fn tileset_matches(vram: Seq<u8>, tileset: Seq<u8>) -> bool {
    &&& tileset.len() == TILESET_SIZE
    &&& forall|i: int| 0 <= i < TILESET_SIZE ==> #[trigger] tileset[i] == tile_pixel_of(vram, i)
}

/// The byte a read of `addr` returns.
pub open spec fn read_spec(s: MmuState, addr: u16) -> u8 {
    if addr < 0x4000 {
        s.rom0[addr as int]
    } else if addr < 0x8000 {
        s.rom1[addr - 0x4000]
    } else if addr < 0xA000 {
        s.vram[addr - 0x8000]
    } else if addr < 0xC000 {
        s.cart_ram[addr - 0xA000]
    } else if addr < 0xE000 {
        s.work_ram[addr - 0xC000]
    } else if addr < 0xFE00 {
        s.work_ram[addr - 0xE000]
    } else if addr < 0xFF00 {
        s.oam[addr - 0xFE00]
    } else if addr == 0xFF00 {
        joyp_value(s.joyp_select, s.buttons, s.dpad)
    } else if addr == 0xFF0F {
        s.interrupt_flags
    } else if addr < 0xFF80 {
        s.io[addr - 0xFF00]
    } else if addr < 0xFFFF {
        s.hram[addr - 0xFF80]
    } else {
        s.interrupt_enable
    }
}

/// OAM after a DMA transfer from page `v`.
pub open spec fn dma_spec(s: MmuState, v: u8) -> Seq<u8> {
    Seq::new(
        OAM_SIZE as nat,
        |i: int|
            if i < DMA_LENGTH {
                read_spec(s, (v as int * 256 + i) as u16)
            } else {
                s.oam[i]
            },
    )
}

/// The state after a guest write of `v` to `addr`.
pub open spec fn write_spec(s: MmuState, addr: u16, v: u8) -> MmuState {
    if addr < 0x8000 {
        s
    } else if addr < 0xA000 {
        MmuState { vram: s.vram.update(addr - 0x8000, v), ..s }
    } else if addr < 0xC000 {
        MmuState { cart_ram: s.cart_ram.update(addr - 0xA000, v), ..s }
    } else if addr < 0xE000 {
        MmuState { work_ram: s.work_ram.update(addr - 0xC000, v), ..s }
    } else if addr < 0xFE00 {
        MmuState { work_ram: s.work_ram.update(addr - 0xE000, v), ..s }
    } else if addr < 0xFF00 {
        if addr < 0xFEA0 {
            MmuState { oam: s.oam.update(addr - 0xFE00, v), ..s }
        } else {
            s
        }
    } else if addr == 0xFF00 {
        MmuState { joyp_select: v & 0x30, ..s }
    } else if addr == 0xFF04 {
        MmuState { io: s.io.update(0x04, 0), ..s }
    } else if addr == 0xFF0F {
        MmuState { interrupt_flags: v, ..s }
    } else if addr == 0xFF44 {
        s
    } else if addr == 0xFF46 {
        MmuState { io: s.io.update(0x46, v), oam: dma_spec(s, v), ..s }
    } else if addr == 0xFF47 {
        MmuState { io: s.io.update(0x47, v), bg_palette: palette_of(v), ..s }
    } else if addr < 0xFF80 {
        MmuState { io: s.io.update(addr - 0xFF00, v), ..s }
    } else if addr < 0xFFFF {
        MmuState { hram: s.hram.update(addr - 0xFF80, v), ..s }
    } else {
        MmuState { interrupt_enable: v, ..s }
    }
}

/// The address after `addr`, wrapping at the top of the address space.
pub open spec fn next_addr(addr: u16) -> u16 {
    if addr == 0xFFFF {
        0
    } else {
        (addr + 1) as u16
    }
}

pub open spec fn word_of(lo: u8, hi: u8) -> u16 {
    (lo + hi * 256) as u16
}

pub open spec fn read_word_spec(s: MmuState, addr: u16) -> u16 {
    word_of(read_spec(s, addr), read_spec(s, next_addr(addr)))
}

pub open spec fn write_word_spec(s: MmuState, addr: u16, v: u16) -> MmuState {
    write_spec(write_spec(s, addr, (v % 256) as u8), next_addr(addr), (v / 256) as u8)
}

/// Addresses backed by plain read/write memory: VRAM, cart RAM, work RAM
/// and high RAM.
pub open spec fn writable_ram(addr: u16) -> bool {
    (0x8000 <= addr < 0xE000) || (0xFF80 <= addr <= 0xFFFE)
}

/// I/O register values after boot.
pub open spec fn boot_io(i: int) -> u8 {
    if i == 0x10 {
        0x80
    } else if i == 0x11 || i == 0x14 || i == 0x19 || i == 0x1E || i == 0x23 {
        0xBF
    } else if i == 0x12 || i == 0x25 {
        0xF3
    } else if i == 0x16 {
        0x3F
    } else if i == 0x1A {
        0x7A
    } else if i == 0x1B || i == 0x20 || i == 0x48 || i == 0x49 {
        0xFF
    } else if i == 0x1C {
        0x9F
    } else if i == 0x24 {
        0x77
    } else if i == 0x26 {
        0xF1
    } else if i == 0x40 {
        0x91
    } else if i == 0x47 {
        0xFC
    } else {
        0
    }
}

pub open spec fn state_wf(s: MmuState) -> bool {
    &&& s.rom0.len() == ROM_BANK_SIZE
    &&& s.rom1.len() == ROM_BANK_SIZE
    &&& s.vram.len() == RAM_SIZE
    &&& s.cart_ram.len() == RAM_SIZE
    &&& s.work_ram.len() == RAM_SIZE
    &&& s.oam.len() == OAM_SIZE
    &&& s.io.len() == IO_SIZE
    &&& s.hram.len() == HRAM_SIZE
    &&& s.bg_palette.len() == 4
}

pub struct Mmu {
    rom_bank_0: Vec<u8>,
    rom_bank_1: Vec<u8>,
    gpu_vram: Vec<u8>,
    cart_ram: Vec<u8>,
    working_ram: Vec<u8>,
    oam: Vec<u8>,
    io: Vec<u8>,
    zero_page: Vec<u8>,
    interrupt_flags: u8,
    interrupt_enable: u8,
    joyp_select: u8,
    buttons: u8,
    dpad: u8,
    tileset: Vec<u8>,
    bg_palette: Vec<u8>,
}

impl View for Mmu {
    type V = MmuState;

    closed spec fn view(&self) -> MmuState {
        MmuState {
            rom0: self.rom_bank_0@,
            rom1: self.rom_bank_1@,
            vram: self.gpu_vram@,
            cart_ram: self.cart_ram@,
            work_ram: self.working_ram@,
            oam: self.oam@,
            io: self.io@,
            hram: self.zero_page@,
            interrupt_flags: self.interrupt_flags,
            interrupt_enable: self.interrupt_enable,
            joyp_select: self.joyp_select,
            buttons: self.buttons,
            dpad: self.dpad,
            bg_palette: self.bg_palette@,
        }
    }
}

proof fn lemma_low_bit_le_one(x: u8)
    ensures
        x & 1 <= 1,
{
    assert(x & 1 <= 1) by (bit_vector);
}

fn zeroed(n: usize) -> (r: Vec<u8>)
    ensures
        r@ == Seq::new(n as nat, |i: int| 0u8),
{
    let mut r: Vec<u8> = Vec::new();
    let mut i: usize = 0;
    while i < n
        invariant
            i <= n,
            r@ == Seq::new(i as nat, |j: int| 0u8),
        decreases n - i,
    {
        r.push(0);
        i = i + 1;
        assert(r@ =~= Seq::new(i as nat, |j: int| 0u8));
    }
    r
}

impl Mmu {
    pub open spec fn wf(&self) -> bool {
        &&& state_wf(self@)
        &&& tileset_matches(self@.vram, self.tileset_view())
    }

    /// The tileset cache.
    pub closed spec fn tileset_view(&self) -> Seq<u8> {
        self.tileset@
    }

    pub fn new() -> (r: Mmu)
        ensures
            r.wf(),
            r@.rom0 == Seq::new(ROM_BANK_SIZE as nat, |i: int| 0u8),
            r@.rom1 == Seq::new(ROM_BANK_SIZE as nat, |i: int| 0u8),
            r@.vram == Seq::new(RAM_SIZE as nat, |i: int| 0u8),
            r@.cart_ram == Seq::new(RAM_SIZE as nat, |i: int| 0u8),
            r@.work_ram == Seq::new(RAM_SIZE as nat, |i: int| 0u8),
            r@.oam == Seq::new(OAM_SIZE as nat, |i: int| 0u8),
            r@.hram == Seq::new(HRAM_SIZE as nat, |i: int| 0u8),
            r@.io == Seq::new(IO_SIZE as nat, |i: int| boot_io(i)),
            r@.interrupt_flags == 0,
            r@.interrupt_enable == 0,
            r@.joyp_select == 0x30,
            r@.buttons == 0x0F,
            r@.dpad == 0x0F,
            r@.bg_palette == palette_of(0xFC),
    {
        let mut io = zeroed(IO_SIZE);
        io.set(0x10, 0x80);
        io.set(0x11, 0xBF);
        io.set(0x12, 0xF3);
        io.set(0x14, 0xBF);
        io.set(0x16, 0x3F);
        io.set(0x19, 0xBF);
        io.set(0x1A, 0x7A);
        io.set(0x1B, 0xFF);
        io.set(0x1C, 0x9F);
        io.set(0x1E, 0xBF);
        io.set(0x20, 0xFF);
        io.set(0x23, 0xBF);
        io.set(0x24, 0x77);
        io.set(0x25, 0xF3);
        io.set(0x26, 0xF1);
        io.set(0x40, 0x91);
        io.set(0x47, 0xFC);
        io.set(0x48, 0xFF);
        io.set(0x49, 0xFF);
        assert(io@ =~= Seq::new(IO_SIZE as nat, |i: int| boot_io(i)));
        let r = Mmu {
            rom_bank_0: zeroed(ROM_BANK_SIZE),
            rom_bank_1: zeroed(ROM_BANK_SIZE),
            gpu_vram: zeroed(RAM_SIZE),
            cart_ram: zeroed(RAM_SIZE),
            working_ram: zeroed(RAM_SIZE),
            oam: zeroed(OAM_SIZE),
            io,
            zero_page: zeroed(HRAM_SIZE),
            interrupt_flags: 0,
            interrupt_enable: 0,
            joyp_select: 0x30,
            buttons: 0x0F,
            dpad: 0x0F,
            tileset: zeroed(TILESET_SIZE),
            bg_palette: Mmu::palette_from(0xFC),
        };
        assert forall|i: int| 0 <= i < TILESET_SIZE implies #[trigger] r.tileset@[i]
            == tile_pixel_of(r.gpu_vram@, i) by {
            let sh = (7 - i % 8) as u8;
            assert(((0u8 >> sh) & 1) + 2 * ((0u8 >> sh) & 1) == 0) by (bit_vector);
        }
        r
    }

    /// Recomputes the tileset row that holds the VRAM byte at `addr`, whose
    /// value has just changed.
    fn update_tileset(&mut self, addr: u16)
        requires
            0x8000 <= addr < 0x9800,
            state_wf(old(self)@),
            old(self).tileset@.len() == TILESET_SIZE,
            forall|i: int|
                0 <= i < TILESET_SIZE && i / 8 != (addr - 0x8000) / 2 ==> #[trigger] old(
                    self,
                ).tileset@[i] == tile_pixel_of(old(self).gpu_vram@, i),
        ensures
            final(self).wf(),
            final(self)@ == old(self)@,
    {
        let o: u16 = addr - 0x8000;
        let pair: usize = (o / 2) as usize;
        let lo: u8 = self.gpu_vram[pair * 2];
        let hi: u8 = self.gpu_vram[pair * 2 + 1];
        let base: usize = pair * 8;
        let mut x: usize = 0;
        while x < 8
            invariant
                x <= 8,
                pair == (addr - 0x8000) / 2,
                pair < 0x0C00,
                base == pair * 8,
                lo == self.gpu_vram@[2 * pair],
                hi == self.gpu_vram@[2 * pair + 1],
                self@ == old(self)@,
                self.gpu_vram@ == old(self).gpu_vram@,
                state_wf(self@),
                self.tileset@.len() == TILESET_SIZE,
                forall|i: int|
                    0 <= i < TILESET_SIZE && (i / 8 != pair || i % 8 < x) ==> #[trigger] self.tileset@[i]
                        == tile_pixel_of(self.gpu_vram@, i),
            decreases 8 - x,
        {
            let shift: u8 = 7 - x as u8;
            proof {
                lemma_low_bit_le_one(lo >> shift);
                lemma_low_bit_le_one(hi >> shift);
            }
            let p: u8 = ((lo >> shift) & 1) + 2 * ((hi >> shift) & 1);
            self.tileset.set(base + x, p);
            assert((base + x) / 8 == pair && (base + x) % 8 == x);
            x = x + 1;
        }
    }

    /// Loads the first 16 KiB of `rom_data` into the fixed ROM bank.
    pub fn write_rom_to_bank_0(&mut self, rom_data: &Vec<u8>)
        requires
            old(self).wf(),
            rom_data@.len() >= ROM_BANK_SIZE,
        ensures
            final(self).wf(),
            final(self)@ == (MmuState { rom0: rom_data@.subrange(0, ROM_BANK_SIZE as int), ..old(self)@ }),
    {
        let mut i: usize = 0;
        while i < ROM_BANK_SIZE
            invariant
                i <= ROM_BANK_SIZE,
                rom_data@.len() >= ROM_BANK_SIZE,
                self.wf(),
                self@ == (MmuState { rom0: self@.rom0, ..old(self)@ }),
                forall|j: int| 0 <= j < i ==> self@.rom0[j] == rom_data@[j],
            decreases ROM_BANK_SIZE - i,
        {
            self.rom_bank_0.set(i, rom_data[i]);
            i = i + 1;
        }
        assert(self@.rom0 =~= rom_data@.subrange(0, ROM_BANK_SIZE as int));
    }

    /// Loads the second 16 KiB of `rom_data` into the switchable ROM bank.
    pub fn write_rom_to_bank_1(&mut self, rom_data: &Vec<u8>)
        requires
            old(self).wf(),
            rom_data@.len() >= 2 * ROM_BANK_SIZE,
        ensures
            final(self).wf(),
            final(self)@ == (MmuState {
                rom1: rom_data@.subrange(ROM_BANK_SIZE as int, 2 * ROM_BANK_SIZE as int),
                ..old(self)@
            }),
    {
        let mut i: usize = 0;
        while i < ROM_BANK_SIZE
            invariant
                i <= ROM_BANK_SIZE,
                rom_data@.len() >= 2 * ROM_BANK_SIZE,
                self.wf(),
                self@ == (MmuState { rom1: self@.rom1, ..old(self)@ }),
                forall|j: int| 0 <= j < i ==> self@.rom1[j] == rom_data@[ROM_BANK_SIZE + j],
            decreases ROM_BANK_SIZE - i,
        {
            self.rom_bank_1.set(i, rom_data[ROM_BANK_SIZE + i]);
            i = i + 1;
        }
        assert(self@.rom1 =~= rom_data@.subrange(ROM_BANK_SIZE as int, 2 * ROM_BANK_SIZE as int));
    }

    fn read_joyp(&self) -> (r: u8)
        ensures
            r == joyp_value(self.joyp_select, self.buttons, self.dpad),
    {
        let group: u8 = if self.joyp_select & 0x10 == 0 {
            self.dpad & 0x0F
        } else if self.joyp_select & 0x20 == 0 {
            self.buttons & 0x0F
        } else {
            0x0F
        };
        0xC0 | (self.joyp_select & 0x30) | group
    }

    pub fn read_byte(&self, addr: u16) -> (r: u8)
        requires
            self.wf(),
        ensures
            r == read_spec(self@, addr),
    {
        if addr < 0x4000 {
            self.rom_bank_0[addr as usize]
        } else if addr < 0x8000 {
            self.rom_bank_1[(addr - 0x4000) as usize]
        } else if addr < 0xA000 {
            self.gpu_vram[(addr - 0x8000) as usize]
        } else if addr < 0xC000 {
            self.cart_ram[(addr - 0xA000) as usize]
        } else if addr < 0xE000 {
            self.working_ram[(addr - 0xC000) as usize]
        } else if addr < 0xFE00 {
            self.working_ram[(addr - 0xE000) as usize]
        } else if addr < 0xFF00 {
            self.oam[(addr - 0xFE00) as usize]
        } else if addr == 0xFF00 {
            self.read_joyp()
        } else if addr == 0xFF0F {
            self.interrupt_flags
        } else if addr < 0xFF80 {
            self.io[(addr - 0xFF00) as usize]
        } else if addr < 0xFFFF {
            self.zero_page[(addr - 0xFF80) as usize]
        } else {
            self.interrupt_enable
        }
    }

    /// Stores into VRAM and refreshes the tileset row that the byte feeds.
    fn write_vram(&mut self, addr: u16, val: u8)
        requires
            old(self).wf(),
            0x8000 <= addr < 0xA000,
        ensures
            final(self).wf(),
            final(self)@ == write_spec(old(self)@, addr, val),
    {
        let o: u16 = addr - 0x8000;
        self.gpu_vram.set(o as usize, val);
        if addr < 0x9800 {
            assert forall|i: int|
                0 <= i < TILESET_SIZE && i / 8 != o / 2 implies #[trigger] self.tileset@[i]
                == tile_pixel_of(self.gpu_vram@, i) by {
                assert(old(self).tileset@[i] == tile_pixel_of(old(self).gpu_vram@, i));
            }
            self.update_tileset(addr);
        } else {
            assert forall|i: int| 0 <= i < TILESET_SIZE implies #[trigger] self.tileset@[i]
                == tile_pixel_of(self.gpu_vram@, i) by {
                assert(old(self).tileset@[i] == tile_pixel_of(old(self).gpu_vram@, i));
            }
        }
    }

    /// Copies 160 bytes from page `val` into OAM.
    fn dma_transfer(&mut self, val: u8)
        requires
            old(self).wf(),
        ensures
            final(self).wf(),
            final(self)@ == (MmuState { oam: dma_spec(old(self)@, val), ..old(self)@ }),
    {
        let src: u16 = (val as u16) * 256;
        let mut i: u16 = 0;
        while i < DMA_LENGTH
            invariant
                i <= DMA_LENGTH,
                src == val as int * 256,
                self.wf(),
                self@ == (MmuState { oam: self@.oam, ..old(self)@ }),
                forall|j: int| 0 <= j < i ==> self@.oam[j] == read_spec(old(self)@, (src + j) as u16),
                forall|j: int| i <= j < OAM_SIZE ==> self@.oam[j] == old(self)@.oam[j],
            decreases DMA_LENGTH - i,
        {
            let b = self.read_byte(src + i);
            assert(b == read_spec(old(self)@, (src + i) as u16));
            self.oam.set(i as usize, b);
            i = i + 1;
        }
        assert(self@.oam =~= dma_spec(old(self)@, val));
    }

    pub fn write_byte(&mut self, addr: u16, val: u8)
        requires
            old(self).wf(),
        ensures
            final(self).wf(),
            final(self)@ == write_spec(old(self)@, addr, val),
    {
        if addr < 0x8000 {
        } else if addr < 0xA000 {
            self.write_vram(addr, val);
        } else if addr < 0xC000 {
            self.cart_ram.set((addr - 0xA000) as usize, val);
        } else if addr < 0xE000 {
            self.working_ram.set((addr - 0xC000) as usize, val);
        } else if addr < 0xFE00 {
            self.working_ram.set((addr - 0xE000) as usize, val);
        } else if addr < 0xFF00 {
            if addr < 0xFEA0 {
                self.oam.set((addr - 0xFE00) as usize, val);
            }
        } else if addr == 0xFF00 {
            self.joyp_select = val & 0x30;
        } else if addr == 0xFF04 {
            self.io.set(0x04, 0);
        } else if addr == 0xFF0F {
            self.interrupt_flags = val;
        } else if addr == 0xFF44 {
        } else if addr == 0xFF46 {
            self.dma_transfer(val);
            self.io.set(0x46, val);
        } else if addr == 0xFF47 {
            self.bg_palette = Mmu::palette_from(val);
            self.io.set(0x47, val);
        } else if addr < 0xFF80 {
            self.io.set((addr - 0xFF00) as usize, val);
        } else if addr < 0xFFFF {
            self.zero_page.set((addr - 0xFF80) as usize, val);
        } else {
            self.interrupt_enable = val;
        }
    }

    fn next(addr: u16) -> (r: u16)
        ensures
            r == next_addr(addr),
    {
        if addr == 0xFFFF {
            0
        } else {
            addr + 1
        }
    }

    /// Little-endian word at `addr` and the address after it.
    pub fn read_word(&self, addr: u16) -> (r: u16)
        requires
            self.wf(),
        ensures
            r == read_word_spec(self@, addr),
    {
        let lo: u8 = self.read_byte(addr);
        let hi: u8 = self.read_byte(Mmu::next(addr));
        lo as u16 + (hi as u16) * 256
    }

    /// Stores `val` little-endian at `addr` and the address after it.
    pub fn write_word(&mut self, addr: u16, val: u16)
        requires
            old(self).wf(),
        ensures
            final(self).wf(),
            final(self)@ == write_word_spec(old(self)@, addr, val),
    {
        let lower_val: u8 = (val % 256) as u8;
        let higher_val: u8 = (val / 256) as u8;
        self.write_byte(addr, lower_val);
        self.write_byte(Mmu::next(addr), higher_val);
    }

    /// Palette index of pixel `col` in row `row` of tile `tile`, as held by
    /// the tileset cache: bit `7 - col` of the row's low-plane byte, plus
    /// twice that bit of its high-plane byte.
    pub fn tile_pixel(&self, tile: usize, row: usize, col: usize) -> (r: u8)
        requires
            self.wf(),
            tile < TILE_COUNT,
            row < 8,
            col < 8,
        ensures
            r == self.tileset_view()[tile * 64 + row * 8 + col],
            r == pixel_color(
                self@.vram[tile * 16 + 2 * row],
                self@.vram[tile * 16 + 2 * row + 1],
                (7 - col) as u8,
            ),
    {
        proof {
            lemma_tile_index(tile as int, row as int, col as int);
        }
        self.tileset[tile * 64 + row * 8 + col]
    }

    /// Background palette entry `i` (a shade).
    pub fn bg_palette(&self, i: usize) -> (r: u8)
        requires
            self.wf(),
            i < 4,
        ensures
            r == self@.bg_palette[i as int],
    {
        self.bg_palette[i]
    }

    /// I/O register `FF00 + i` as stored, for collaborators such as the PPU.
    pub fn io_register(&self, i: u8) -> (r: u8)
        requires
            self.wf(),
            i < 0x80,
        ensures
            r == self@.io[i as int],
    {
        self.io[i as usize]
    }

    /// Stores an I/O register directly, bypassing the guest write rules (the
    /// PPU writes `LY` this way).
    pub fn set_io_register(&mut self, i: u8, v: u8)
        requires
            old(self).wf(),
            i < 0x80,
        ensures
            final(self).wf(),
            final(self)@ == (MmuState { io: old(self)@.io.update(i as int, v), ..old(self)@ }),
    {
        self.io.set(i as usize, v);
    }

    /// Latches the joypad lines (low nibbles, 1 = released).
    pub fn set_joypad(&mut self, buttons: u8, dpad: u8)
        requires
            old(self).wf(),
        ensures
            final(self).wf(),
            final(self)@ == (MmuState { buttons, dpad, ..old(self)@ }),
    {
        self.buttons = buttons;
        self.dpad = dpad;
    }

    pub fn interrupt_flags(&self) -> (r: u8)
        ensures
            r == self@.interrupt_flags,
    {
        self.interrupt_flags
    }

    pub fn interrupt_enable(&self) -> (r: u8)
        ensures
            r == self@.interrupt_enable,
    {
        self.interrupt_enable
    }

    fn palette_from(v: u8) -> (r: Vec<u8>)
        ensures
            r@ == palette_of(v),
    {
        let mut r: Vec<u8> = Vec::new();
        let mut i: u8 = 0;
        while i < 4
            invariant
                i <= 4,
                r@.len() == i,
                forall|j: int| 0 <= j < i ==> r@[j] == palette_entry(v, j as u8),
            decreases 4 - i,
        {
            let idx: u8 = (v >> (2 * i)) & 3;
            let s: u8 = if idx == 0 {
                255
            } else if idx == 1 {
                192
            } else if idx == 2 {
                196
            } else {
                0
            };
            r.push(s);
            i = i + 1;
        }
        assert(r@ =~= palette_of(v));
        r
    }
}

proof fn lemma_tile_index(tile: int, row: int, col: int)
    requires
        0 <= tile < TILE_COUNT,
        0 <= row < 8,
        0 <= col < 8,
    ensures
        (tile * 64 + row * 8 + col) / 8 == tile * 8 + row,
        (tile * 64 + row * 8 + col) % 8 == col,
        0 <= tile * 64 + row * 8 + col < TILESET_SIZE,
{
    assert((tile * 64 + row * 8 + col) / 8 == tile * 8 + row) by (nonlinear_arith)
        requires
            0 <= row < 8,
            0 <= col < 8,
    ;
    assert((tile * 64 + row * 8 + col) % 8 == col) by (nonlinear_arith)
        requires
            0 <= row < 8,
            0 <= col < 8,
    ;
    assert(tile * 64 + row * 8 + col < TILESET_SIZE) by (nonlinear_arith)
        requires
            0 <= tile < TILE_COUNT,
            0 <= row < 8,
            0 <= col < 8,
    ;
}

/// Echo RAM mirrors work RAM: in every state, a read anywhere in
/// `E000–FDFF` returns the byte `0x2000` below it.
pub proof fn lemma_echo_mirrors_work_ram(s: MmuState, addr: u16)
    requires
        state_wf(s),
        0xE000 <= addr <= 0xFDFF,
    ensures
        read_spec(s, addr) == read_spec(s, (addr - 0x2000) as u16),
{
}

/// A word written to RAM reads back unchanged.
pub proof fn lemma_word_round_trip(s: MmuState, addr: u16, v: u16)
    requires
        state_wf(s),
        writable_ram(addr),
    ensures
        read_word_spec(write_word_spec(s, addr, v), addr) == v,
{
    let s1 = write_spec(s, addr, (v % 256) as u8);
    let s2 = write_spec(s1, next_addr(addr), (v / 256) as u8);
    assert(read_spec(s1, addr) == (v % 256) as u8);
    assert(read_spec(s2, addr) == (v % 256) as u8);
    assert(read_spec(s2, next_addr(addr)) == (v / 256) as u8);
}

/// Two bytes written high first, at the address after `addr`, then low at
/// `addr`, read back as one little-endian word.
pub proof fn lemma_bytes_read_back_as_word(s: MmuState, addr: u16, v: u16)
    requires
        state_wf(s),
        writable_ram(addr),
        writable_ram(next_addr(addr)),
    ensures
        read_word_spec(
            write_spec(write_spec(s, next_addr(addr), (v / 256) as u8), addr, (v % 256) as u8),
            addr,
        ) == v,
{
    let s1 = write_spec(s, next_addr(addr), (v / 256) as u8);
    let s2 = write_spec(s1, addr, (v % 256) as u8);
    assert(read_spec(s1, next_addr(addr)) == (v / 256) as u8);
    assert(read_spec(s2, next_addr(addr)) == (v / 256) as u8);
    assert(read_spec(s2, addr) == (v % 256) as u8);
}

/// The tileset cache is a pure function of VRAM: in every well-formed
/// state, pixel `col` of row `row` of tile `tile` combines bit `7 - col` of
/// the row's two plane bytes at `tile * 16 + 2 * row` (low) and the byte
/// after it (high).
pub proof fn lemma_tileset_is_vram_view(m: &Mmu, tile: int, row: int, col: int)
    requires
        m.wf(),
        0 <= tile < TILE_COUNT,
        0 <= row < 8,
        0 <= col < 8,
    ensures
        m.tileset_view()[tile * 64 + row * 8 + col] == pixel_color(
            m@.vram[tile * 16 + 2 * row],
            m@.vram[tile * 16 + 2 * row + 1],
            (7 - col) as u8,
        ),
{
    lemma_tile_index(tile, row, col);
}

} // verus!
