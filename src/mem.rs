use vstd::prelude::*;

verus! {

/// Size of the work RAM in bytes: two 4KB banks.
pub const WRAM_SIZE: usize = 0x2000;

/// Size of the scratch RAM in bytes.
pub const HRAM_SIZE: usize = 0x7f;

/// The cartridge's memory bank controller.
#[derive(Clone, Copy, Debug, PartialEq, Eq, Structural)]
pub enum Mbc {
    Mbc1,
    Mbc2,
    Mbc3,
    Mbc5,
}

/// How an MBC1 write to 0x4000-0x5FFF is read: upper ROM bank bits, or RAM bank.
#[derive(Clone, Copy, Debug, PartialEq, Eq, Structural)]
pub enum BankMode {
    Rom,
    Ram,
}

impl BankMode {
    pub open spec fn of_byte(val: u8) -> BankMode {
        if val % 2 == 1 {
            BankMode::Ram
        } else {
            BankMode::Rom
        }
    }

    /// Bit 0 of the value selects RAM banking.
    pub fn from_u8(val: u8) -> (r: BankMode)
        ensures
            r == BankMode::of_byte(val),
    {
        if val % 2 == 1 {
            BankMode::Ram
        } else {
            BankMode::Rom
        }
    }
}

/// The byte of `s` at `i`, or the open-bus value 0xFF past its end.
pub open spec fn byte_at(s: Seq<u8>, i: int) -> u8 {
    if 0 <= i < s.len() {
        s[i]
    } else {
        0xff
    }
}

/// The byte sequence `s` with the byte at `i` replaced, unchanged when `i` is past its end.
pub open spec fn store_at(s: Seq<u8>, i: int, v: u8) -> Seq<u8> {
    if 0 <= i < s.len() {
        s.update(i, v)
    } else {
        s
    }
}

/// A bank number with 0 read as 1.
pub open spec fn nonzero_bank(b: u16) -> u16 {
    if b == 0 {
        1
    } else {
        b
    }
}

/// A sequence of `n` zero bytes.
pub open spec fn zeros(n: nat) -> Seq<u8> {
    Seq::new(n, |i: int| 0u8)
}

/// Whether `addr` falls in work RAM or its mirror.
pub open spec fn is_wram(addr: u16) -> bool {
    0xc000 <= addr <= 0xfdff
}

/// Offset into work RAM of an address for which `is_wram` holds: bank 0 at
/// 0xC000 and 0xE000, bank 1 at 0xD000 and 0xF000.
pub open spec fn wram_index(addr: u16) -> int {
    if (0xc000 <= addr <= 0xcfff) || (0xe000 <= addr <= 0xefff) {
        addr as int % 0x1000
    } else {
        addr as int % 0x1000 + 0x1000
    }
}

/// Abstract state of the address space.
pub struct MemoryView {
    pub ie: u8,
    pub rom: Seq<u8>,
    pub ram: Seq<u8>,
    pub wram: Seq<u8>,
    pub hram: Seq<u8>,
    pub rom_bank: u16,
    pub ram_bank: u8,
    pub ram_enabled: bool,
    pub mode: BankMode,
    pub mbc: Mbc,
}

impl MemoryView {
    /// Buffer sizes, the width of each bank register per controller, and no
    /// bank 0 in the switchable window of MBC1 and MBC3.
    pub open spec fn wf(self) -> bool {
        &&& self.wram.len() == WRAM_SIZE
        &&& self.hram.len() == HRAM_SIZE
        &&& match self.mbc {
            Mbc::Mbc1 => 1 <= self.rom_bank < 0x80 && self.ram_bank < 4,
            Mbc::Mbc2 => self.rom_bank < 0x10 && self.ram_bank == 0,
            Mbc::Mbc3 => 1 <= self.rom_bank < 0x80 && self.ram_bank < 4,
            Mbc::Mbc5 => self.rom_bank < 0x200 && self.ram_bank < 0x10,
        }
    }

    /// Index into the ROM image of an address in 0x4000-0x7FFF.
    pub open spec fn rom_index(self, addr: u16) -> int {
        (addr - 0x4000) + self.rom_bank * 0x4000
    }

    /// Index into cartridge RAM of an address in 0xA000-0xBFFF.
    pub open spec fn ram_index(self, addr: u16) -> int {
        (addr - 0xa000) + self.ram_bank * 0x2000
    }

    /// The byte that a read of `addr` yields.
    pub open spec fn read(self, addr: u16) -> u8 {
        if addr <= 0x3fff {
            byte_at(self.rom, addr as int)
        } else if addr <= 0x7fff {
            byte_at(self.rom, self.rom_index(addr))
        } else if 0xa000 <= addr <= 0xbfff {
            if self.ram_enabled {
                byte_at(self.ram, self.ram_index(addr))
            } else {
                0xff
            }
        } else if is_wram(addr) {
            self.wram[wram_index(addr)]
        } else if 0xff80 <= addr <= 0xfffe {
            self.hram[addr - 0xff80]
        } else if addr == 0xffff {
            self.ie
        } else {
            0xff
        }
    }

    /// Effect of a write to 0x0000-0x1FFF: the cartridge RAM enable.
    pub open spec fn enable_write(self, addr: u16, val: u8) -> MemoryView {
        match self.mbc {
            Mbc::Mbc2 => if addr / 0x100 % 2 == 0 {
                MemoryView { ram_enabled: !self.ram_enabled, ..self }
            } else {
                self
            },
            _ => MemoryView { ram_enabled: val % 16 == 0xa, ..self },
        }
    }

    /// Effect of a write to 0x2000-0x3FFF: the ROM bank number, or its low bits.
    pub open spec fn rom_bank_write(self, addr: u16, val: u8) -> MemoryView {
        let v = val as u16;
        match self.mbc {
            Mbc::Mbc1 => MemoryView {
                rom_bank: nonzero_bank((self.rom_bank / 0x20 % 4 * 0x20 + v % 0x20) as u16),
                ..self
            },
            Mbc::Mbc2 => if addr / 0x100 % 2 == 1 {
                MemoryView { rom_bank: v % 16, ..self }
            } else {
                self
            },
            Mbc::Mbc3 => MemoryView { rom_bank: nonzero_bank(v % 0x80), ..self },
            Mbc::Mbc5 => if addr <= 0x2fff {
                MemoryView { rom_bank: (self.rom_bank / 0x100 * 0x100 + v) as u16, ..self }
            } else {
                MemoryView { rom_bank: (self.rom_bank % 0x100 + v % 2 * 0x100) as u16, ..self }
            },
        }
    }

    /// Effect of a write to 0x4000-0x5FFF: the RAM bank number, or on MBC1 in
    /// ROM banking mode the ROM bank's bits 5 and 6.
    pub open spec fn upper_bank_write(self, val: u8) -> MemoryView {
        match self.mbc {
            Mbc::Mbc1 => match self.mode {
                BankMode::Rom => MemoryView {
                    rom_bank: nonzero_bank((self.rom_bank % 0x20 + val % 4 * 0x20) as u16),
                    ..self
                },
                BankMode::Ram => MemoryView { ram_bank: val % 4, ..self },
            },
            Mbc::Mbc2 => self,
            Mbc::Mbc3 => MemoryView { ram_bank: val % 4, ..self },
            Mbc::Mbc5 => MemoryView { ram_bank: val % 16, ..self },
        }
    }

    /// Effect of a write to 0x6000-0x7FFF: the MBC1 banking mode. On MBC3 this
    /// is the clock latch command, accepted and without effect here.
    pub open spec fn mode_write(self, val: u8) -> MemoryView {
        match self.mbc {
            Mbc::Mbc1 => MemoryView { mode: BankMode::of_byte(val), ..self },
            _ => self,
        }
    }

    /// The value a cartridge RAM cell keeps of a written byte: MBC2 cells hold four bits.
    pub open spec fn ram_cell(self, val: u8) -> u8 {
        if self.mbc == Mbc::Mbc2 {
            val % 16
        } else {
            val
        }
    }

    /// The state after a write of `val` to `addr`.
    pub open spec fn write(self, addr: u16, val: u8) -> MemoryView {
        if addr <= 0x1fff {
            self.enable_write(addr, val)
        } else if addr <= 0x3fff {
            self.rom_bank_write(addr, val)
        } else if addr <= 0x5fff {
            self.upper_bank_write(val)
        } else if addr <= 0x7fff {
            self.mode_write(val)
        } else if 0xa000 <= addr <= 0xbfff {
            if self.ram_enabled {
                MemoryView {
                    ram: store_at(self.ram, self.ram_index(addr), self.ram_cell(val)),
                    ..self
                }
            } else {
                self
            }
        } else if is_wram(addr) {
            MemoryView { wram: self.wram.update(wram_index(addr), val), ..self }
        } else if 0xff80 <= addr <= 0xfffe {
            MemoryView { hram: self.hram.update(addr - 0xff80, val), ..self }
        } else if addr == 0xffff {
            MemoryView { ie: val, ..self }
        } else {
            self
        }
    }
}

/// The addressable memory of the console: cartridge ROM and RAM behind a bank
/// controller, work RAM, scratch RAM and the interrupt-enable register.
pub struct Memory {
    ie: u8,
    rom: Vec<u8>,
    ram: Vec<u8>,
    wram: Vec<u8>,
    hram: Vec<u8>,
    rom_bank: u16,
    ram_bank: u8,
    ram_enabled: bool,
    mode: BankMode,
    mbc: Mbc,
}

impl View for Memory {
    type V = MemoryView;

    closed spec fn view(&self) -> MemoryView {
        MemoryView {
            ie: self.ie,
            rom: self.rom@,
            ram: self.ram@,
            wram: self.wram@,
            hram: self.hram@,
            rom_bank: self.rom_bank,
            ram_bank: self.ram_bank,
            ram_enabled: self.ram_enabled,
            mode: self.mode,
            mbc: self.mbc,
        }
    }
}

fn byte_of(s: &Vec<u8>, i: usize) -> (r: u8)
    ensures
        r == byte_at(s@, i as int),
{
    if i < s.len() {
        s[i]
    } else {
        0xff
    }
}

fn zeroed(n: usize) -> (r: Vec<u8>)
    ensures
        r@ == zeros(n as nat),
{
    let mut v: Vec<u8> = Vec::new();
    let mut i: usize = 0;
    while i < n
        invariant
            i <= n,
            v@ == zeros(i as nat),
        decreases n - i,
    {
        v.push(0);
        i = i + 1;
        assert(v@ =~= zeros(i as nat));
    }
    v
}

impl Memory {
    /// A memory with the given ROM image, bank controller and cartridge RAM
    /// size, in the state the boot ROM leaves it: ROM bank 1 mapped, cartridge
    /// RAM disabled, all RAM zeroed and interrupts disabled.
    pub fn new(rom: Vec<u8>, mbc: Mbc, ram_size: usize) -> (r: Memory)
        ensures
            r@ == (MemoryView {
                ie: 0,
                rom: rom@,
                ram: zeros(ram_size as nat),
                wram: zeros(WRAM_SIZE as nat),
                hram: zeros(HRAM_SIZE as nat),
                rom_bank: 1,
                ram_bank: 0,
                ram_enabled: false,
                mode: BankMode::Rom,
                mbc,
            }),
            r@.wf(),
    {
        let mut m = Memory {
            ie: 0,
            rom,
            ram: zeroed(ram_size),
            wram: zeroed(WRAM_SIZE),
            hram: zeroed(HRAM_SIZE),
            rom_bank: 1,
            ram_bank: 0,
            ram_enabled: false,
            mode: BankMode::Rom,
            mbc,
        };
        m.power_up();
        m
    }

    /// Writes the register values that the boot ROM leaves behind. Of these
    /// only the interrupt-enable byte is held here; the peripheral registers
    /// fall to the bus's no-op range.
    fn power_up(&mut self)
        requires
            old(self)@.wf(),
        ensures
            final(self)@ == (MemoryView { ie: 0, ..old(self)@ }),
    {
        self.wb(0xff05, 0x00); // TIMA
        self.wb(0xff06, 0x00); // TMA
        self.wb(0xff07, 0x00); // TAC
        self.wb(0xff10, 0x80); // NR10
        self.wb(0xff11, 0xbf); // NR11
        self.wb(0xff12, 0xf3); // NR12
        self.wb(0xff14, 0xbf); // NR14
        self.wb(0xff16, 0x3f); // NR21
        self.wb(0xff17, 0x00); // NR22
        self.wb(0xff19, 0xbf); // NR24
        self.wb(0xff1a, 0x7f); // NR30
        self.wb(0xff1b, 0xff); // NR31
        self.wb(0xff1c, 0x9f); // NR32
        self.wb(0xff1e, 0xbf); // NR33
        self.wb(0xff20, 0xff); // NR41
        self.wb(0xff21, 0x00); // NR42
        self.wb(0xff22, 0x00); // NR43
        self.wb(0xff23, 0xbf); // NR44
        self.wb(0xff24, 0x77); // NR50
        self.wb(0xff25, 0xf3); // NR51
        self.wb(0xff26, 0xf1); // NR52
        self.wb(0xff40, 0x91); // LCDC
        self.wb(0xff42, 0x00); // SCY
        self.wb(0xff43, 0x00); // SCX
        self.wb(0xff45, 0x00); // LYC
        self.wb(0xff47, 0xfc); // BGP
        self.wb(0xff48, 0xff); // OBP0
        self.wb(0xff49, 0xff); // OBP1
        self.wb(0xff4a, 0x00); // WY
        self.wb(0xff4b, 0x00); // WX
        self.wb(0xffff, 0x00); // IE
    }

    /// Reads a byte.
    pub fn rb(&self, addr: u16) -> (r: u8)
        requires
            self@.wf(),
        ensures
            r == self@.read(addr),
    {
        if addr <= 0x3fff {
            byte_of(&self.rom, addr as usize)
        } else if addr <= 0x7fff {
            let offset = (self.rom_bank as usize) * 0x4000;
            byte_of(&self.rom, (addr - 0x4000) as usize + offset)
        } else if 0xa000 <= addr && addr <= 0xbfff {
            if !self.ram_enabled {
                0xff
            } else {
                let offset = (self.ram_bank as usize) * 0x2000;
                byte_of(&self.ram, (addr - 0xa000) as usize + offset)
            }
        } else if (0xc000 <= addr && addr <= 0xcfff) || (0xe000 <= addr && addr <= 0xefff) {
            self.wram[(addr % 0x1000) as usize]
        } else if (0xd000 <= addr && addr <= 0xdfff) || (0xf000 <= addr && addr <= 0xfdff) {
            self.wram[(addr % 0x1000 + 0x1000) as usize]
        } else if 0xff80 <= addr && addr <= 0xfffe {
            self.hram[(addr - 0xff80) as usize]
        } else if addr == 0xffff {
            self.ie
        } else {
            0xff
        }
    }

    /// The selected switchable ROM bank.
    pub fn rom_bank(&self) -> (r: u16)
        ensures
            r == self@.rom_bank,
    {
        self.rom_bank
    }

    /// The selected cartridge RAM bank.
    pub fn ram_bank(&self) -> (r: u8)
        ensures
            r == self@.ram_bank,
    {
        self.ram_bank
    }

    /// Writes a byte.
    pub fn wb(&mut self, addr: u16, val: u8)
        requires
            old(self)@.wf(),
        ensures
            final(self)@ == old(self)@.write(addr, val),
            final(self)@.wf(),
    {
        if addr <= 0x1fff {
            // RAM enable
            match self.mbc {
                Mbc::Mbc2 => {
                    if addr / 0x100 % 2 == 0 {
                        self.ram_enabled = !self.ram_enabled;
                    }
                },
                _ => self.ram_enabled = val % 16 == 0xa,
            }
        } else if addr <= 0x3fff {
            // ROM bank number
            let v = val as u16;
            match self.mbc {
                Mbc::Mbc1 => {
                    let b = self.rom_bank / 0x20 % 4 * 0x20 + v % 0x20;
                    self.rom_bank = if b == 0 { 1 } else { b };
                },
                Mbc::Mbc2 => {
                    if addr / 0x100 % 2 == 1 {
                        self.rom_bank = v % 16;
                    }
                },
                Mbc::Mbc3 => {
                    let b = v % 0x80;
                    self.rom_bank = if b == 0 { 1 } else { b };
                },
                Mbc::Mbc5 => {
                    if addr <= 0x2fff {
                        // low eight bits
                        self.rom_bank = self.rom_bank / 0x100 * 0x100 + v;
                    } else {
                        // bit 8
                        self.rom_bank = self.rom_bank % 0x100 + v % 2 * 0x100;
                    }
                },
            }
        } else if addr <= 0x5fff {
            // RAM bank number, or upper ROM bank bits
            match self.mbc {
                Mbc::Mbc1 => match self.mode {
                    BankMode::Rom => {
                        let b = self.rom_bank % 0x20 + (val % 4) as u16 * 0x20;
                        self.rom_bank = if b == 0 { 1 } else { b };
                    },
                    BankMode::Ram => {
                        self.ram_bank = val % 4;
                    },
                },
                Mbc::Mbc2 => {},
                Mbc::Mbc3 => {
                    self.ram_bank = val % 4;
                },
                Mbc::Mbc5 => {
                    self.ram_bank = val % 16;
                },
            }
        } else if addr <= 0x7fff {
            // banking mode select; the MBC3 clock latch is accepted and ignored
            match self.mbc {
                Mbc::Mbc1 => self.mode = BankMode::from_u8(val),
                _ => {},
            }
        } else if 0xa000 <= addr && addr <= 0xbfff {
            if self.ram_enabled {
                let cell = match self.mbc {
                    Mbc::Mbc2 => val % 16,
                    _ => val,
                };
                let i = (addr - 0xa000) as usize + (self.ram_bank as usize) * 0x2000;
                if i < self.ram.len() {
                    self.ram.set(i, cell);
                }
            }
        } else if (0xc000 <= addr && addr <= 0xcfff) || (0xe000 <= addr && addr <= 0xefff) {
            self.wram.set((addr % 0x1000) as usize, val);
        } else if (0xd000 <= addr && addr <= 0xdfff) || (0xf000 <= addr && addr <= 0xfdff) {
            self.wram.set((addr % 0x1000 + 0x1000) as usize, val);
        } else if 0xff80 <= addr && addr <= 0xfffe {
            self.hram.set((addr - 0xff80) as usize, val);
        } else if addr == 0xffff {
            self.ie = val;
        }
    }
}

/// Bank 0 of the ROM is always mapped at 0x0000-0x3FFF: a read there yields
/// the ROM byte at the same index, before and after any write.
pub proof fn lemma_fixed_bank(m: MemoryView, a: u16, w: u16, v: u8)
    requires
        m.wf(),
        a <= 0x3fff,
        a < m.rom.len(),
    ensures
        m.read(a) == m.rom[a as int],
        m.write(w, v).read(a) == m.rom[a as int],
{
}

/// A read in 0x4000-0x7FFF yields the ROM byte at the offset within the
/// window plus the selected bank times 0x4000; only writes to the bank
/// controller's range below 0x8000 change what it yields.
pub proof fn lemma_switchable_bank(m: MemoryView, a: u16, w: u16, v: u8)
    requires
        m.wf(),
        0x4000 <= a <= 0x7fff,
        m.rom_index(a) < m.rom.len(),
    ensures
        m.read(a) == m.rom[(a - 0x4000) + m.rom_bank * 0x4000],
        w >= 0x8000 ==> m.write(w, v).read(a) == m.read(a),
{
}

/// On MBC1, MBC3 and MBC5 a write to 0x0000-0x1FFF enables cartridge RAM
/// exactly when the value's low nibble is 0xA: otherwise 0xA000 reads 0xFF,
/// and if so it reads the stored RAM byte.
pub proof fn lemma_ram_enable(m: MemoryView, w: u16, v: u8)
    requires
        m.wf(),
        m.mbc != Mbc::Mbc2,
        w <= 0x1fff,
    ensures
        v % 16 != 0xa ==> m.write(w, v).read(0xa000) == 0xff,
        v % 16 == 0xa ==> m.write(w, v).read(0xa000) == byte_at(m.ram, m.ram_bank * 0x2000),
{
}

/// On MBC1 a write of 0 to the ROM bank register never selects bank 0; with
/// the upper bank bits clear it selects bank 1.
pub proof fn lemma_mbc1_bank_zero(m: MemoryView)
    requires
        m.wf(),
        m.mbc == Mbc::Mbc1,
    ensures
        m.write(0x2000, 0).rom_bank != 0,
        m.rom_bank < 0x20 ==> m.write(0x2000, 0).rom_bank == 1,
{
}

/// On MBC5 the ROM bank is nine bits wide: 0xFF written to 0x2000 and then 1
/// to 0x3000 selects bank 0x1FF.
pub proof fn lemma_mbc5_high_bit(m: MemoryView)
    requires
        m.wf(),
        m.mbc == Mbc::Mbc5,
    ensures
        m.write(0x2000, 0xff).write(0x3000, 0x01).rom_bank == 0x1ff,
{
}

/// Work RAM at 0xC000-0xDDFF and 0xE000-0xFDFF is one store: a byte written
/// through either address reads back through the other.
pub proof fn lemma_wram_mirror(m: MemoryView, a: u16, v: u8)
    requires
        m.wf(),
        0xc000 <= a <= 0xddff,
    ensures
        m.write(a, v).read((a + 0x2000) as u16) == v,
        m.write((a + 0x2000) as u16, v).read(a) == v,
{
}

/// The interrupt-enable byte at 0xFFFF reads back what was written.
pub proof fn lemma_ie_round_trip(m: MemoryView, v: u8)
    requires
        m.wf(),
    ensures
        m.write(0xffff, v).read(0xffff) == v,
{
}

/// On MBC3 the clock latch command at 0x6000-0x7FFF changes nothing: banks,
/// RAM enable, and all memory contents stay as they were.
pub proof fn lemma_rtc_latch(m: MemoryView, w: u16, v: u8)
    requires
        m.wf(),
        m.mbc == Mbc::Mbc3,
        0x6000 <= w <= 0x7fff,
    ensures
        m.write(w, v) == m,
{
}

} // verus!
