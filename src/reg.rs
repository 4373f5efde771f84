use vstd::prelude::*;

verus! {

/// Zero flag mask over the F register.
pub const Z: u8 = 0x80;

/// Subtract flag mask over the F register.
pub const N: u8 = 0x40;

/// Half-carry flag mask over the F register.
pub const H: u8 = 0x20;

/// Carry flag mask over the F register.
pub const C: u8 = 0x10;

/// The value of a 16-bit register pair made of a high and a low byte.
pub open spec fn pair(hi: u8, lo: u8) -> int {
    hi as int * 256 + lo as int
}

/// Abstract state of the register file.
pub struct RegistersView {
    pub a: u8,
    pub b: u8,
    pub c: u8,
    pub d: u8,
    pub e: u8,
    pub f: u8,
    pub h: u8,
    pub l: u8,
    pub pc: u16,
    pub sp: u16,
    pub halted: bool,
    pub stopped: bool,
    pub ime: bool,
}

impl RegistersView {
    /// The low nibble of F is always zero.
    pub open spec fn wf(self) -> bool {
        self.f % 16 == 0
    }

    pub open spec fn af(self) -> int {
        pair(self.a, self.f)
    }

    pub open spec fn bc(self) -> int {
        pair(self.b, self.c)
    }

    pub open spec fn de(self) -> int {
        pair(self.d, self.e)
    }

    pub open spec fn hl(self) -> int {
        pair(self.h, self.l)
    }
}

/// CPU registers: eight 8-bit registers, PC, SP and three control latches.
#[derive(Debug)]
pub struct Registers {
    halted: bool,
    stopped: bool,
    ime: bool,
    a: u8,
    b: u8,
    c: u8,
    d: u8,
    e: u8,
    f: u8,
    h: u8,
    l: u8,
    pc: u16,
    sp: u16,
}

impl View for Registers {
    type V = RegistersView;

    closed spec fn view(&self) -> RegistersView {
        RegistersView {
            a: self.a,
            b: self.b,
            c: self.c,
            d: self.d,
            e: self.e,
            f: self.f,
            h: self.h,
            l: self.l,
            pc: self.pc,
            sp: self.sp,
            halted: self.halted,
            stopped: self.stopped,
            ime: self.ime,
        }
    }
}

proof fn lemma_pair_bits(hi: u8, lo: u8)
    ensures
        ((hi as u16) << 8u16 | lo as u16) as int == pair(hi, lo),
{
    assert(((hi as u16) << 8u16 | lo as u16) == (hi as u16) * 256 + (lo as u16)) by (bit_vector);
}

fn join(hi: u8, lo: u8) -> (r: u16)
    ensures
        r as int == pair(hi, lo),
{
    proof {
        lemma_pair_bits(hi, lo);
    }
    ((hi as u16) << 8) | (lo as u16)
}

impl Registers {
    /// The register state left by the boot ROM.
    pub fn new() -> (r: Registers)
        ensures
            r@ == (RegistersView {
                a: 0x01,
                b: 0x00,
                c: 0x13,
                d: 0x00,
                e: 0xd8,
                f: 0x00,
                h: 0x01,
                l: 0x4d,
                pc: 0x0100,
                sp: 0xfffe,
                halted: false,
                stopped: false,
                ime: false,
            }),
            r@.wf(),
    {
        Registers {
            halted: false,
            stopped: false,
            ime: false,
            a: 0x01,
            b: 0x00,
            c: 0x13,
            d: 0x00,
            e: 0xd8,
            f: 0,
            h: 0x01,
            l: 0x4d,
            sp: 0xfffe,
            pc: 0x0100,
        }
    }

    pub fn af(&self) -> (r: u16)
        ensures
            r == self@.af(),
    {
        join(self.a, self.f)
    }

    pub fn bc(&self) -> (r: u16)
        ensures
            r == self@.bc(),
    {
        join(self.b, self.c)
    }

    pub fn de(&self) -> (r: u16)
        ensures
            r == self@.de(),
    {
        join(self.d, self.e)
    }

    pub fn hl(&self) -> (r: u16)
        ensures
            r == self@.hl(),
    {
        join(self.h, self.l)
    }

    /// Returns PC and advances it by one, wrapping at the top of the address space.
    pub fn bump(&mut self) -> (r: u16)
        ensures
            r == old(self)@.pc,
            final(self)@ == (RegistersView { pc: ((old(self)@.pc + 1) % 0x10000) as u16, ..old(self)@ }),
    {
        let pc = self.pc;
        self.pc = self.pc.wrapping_add(1);
        pc
    }

    /// Adds one to HL, the carry out of L going into H, wrapping at 0xFFFF.
    pub fn inc_hl(&mut self)
        ensures
            final(self)@.hl() == (old(self)@.hl() + 1) % 0x10000,
            final(self)@ == (RegistersView { h: final(self)@.h, l: final(self)@.l, ..old(self)@ }),
    {
        self.l = self.l.wrapping_add(1);
        if self.l == 0 {
            self.h = self.h.wrapping_add(1);
        }
    }

    /// Subtracts one from HL, the borrow out of L coming from H, wrapping at 0x0000.
    pub fn dec_hl(&mut self)
        ensures
            final(self)@.hl() == (old(self)@.hl() + 0xffff) % 0x10000,
            final(self)@ == (RegistersView { h: final(self)@.h, l: final(self)@.l, ..old(self)@ }),
    {
        self.l = self.l.wrapping_sub(1);
        if self.l == 0xff {
            self.h = self.h.wrapping_sub(1);
        }
    }

    pub fn a(&self) -> (r: u8)
        ensures
            r == self@.a,
    {
        self.a
    }

    pub fn b(&self) -> (r: u8)
        ensures
            r == self@.b,
    {
        self.b
    }

    pub fn c(&self) -> (r: u8)
        ensures
            r == self@.c,
    {
        self.c
    }

    pub fn d(&self) -> (r: u8)
        ensures
            r == self@.d,
    {
        self.d
    }

    pub fn e(&self) -> (r: u8)
        ensures
            r == self@.e,
    {
        self.e
    }

    pub fn f(&self) -> (r: u8)
        ensures
            r == self@.f,
    {
        self.f
    }

    pub fn h(&self) -> (r: u8)
        ensures
            r == self@.h,
    {
        self.h
    }

    pub fn l(&self) -> (r: u8)
        ensures
            r == self@.l,
    {
        self.l
    }

    pub fn set_a(&mut self, v: u8)
        ensures
            final(self)@ == (RegistersView { a: v, ..old(self)@ }),
    {
        self.a = v;
    }

    pub fn set_b(&mut self, v: u8)
        ensures
            final(self)@ == (RegistersView { b: v, ..old(self)@ }),
    {
        self.b = v;
    }

    pub fn set_c(&mut self, v: u8)
        ensures
            final(self)@ == (RegistersView { c: v, ..old(self)@ }),
    {
        self.c = v;
    }

    pub fn set_d(&mut self, v: u8)
        ensures
            final(self)@ == (RegistersView { d: v, ..old(self)@ }),
    {
        self.d = v;
    }

    pub fn set_e(&mut self, v: u8)
        ensures
            final(self)@ == (RegistersView { e: v, ..old(self)@ }),
    {
        self.e = v;
    }

    pub fn set_h(&mut self, v: u8)
        ensures
            final(self)@ == (RegistersView { h: v, ..old(self)@ }),
    {
        self.h = v;
    }

    pub fn set_l(&mut self, v: u8)
        ensures
            final(self)@ == (RegistersView { l: v, ..old(self)@ }),
    {
        self.l = v;
    }

    /// Sets the flags; the low nibble of F stays zero whatever `v` holds.
    pub fn set_f(&mut self, v: u8)
        ensures
            final(self)@ == (RegistersView { f: (v / 16 * 16) as u8, ..old(self)@ }),
            final(self)@.wf(),
    {
        self.f = v / 16 * 16;
    }

    pub fn pc(&self) -> (r: u16)
        ensures
            r == self@.pc,
    {
        self.pc
    }

    pub fn set_pc(&mut self, v: u16)
        ensures
            final(self)@ == (RegistersView { pc: v, ..old(self)@ }),
    {
        self.pc = v;
    }

    pub fn sp(&self) -> (r: u16)
        ensures
            r == self@.sp,
    {
        self.sp
    }

    pub fn set_sp(&mut self, v: u16)
        ensures
            final(self)@ == (RegistersView { sp: v, ..old(self)@ }),
    {
        self.sp = v;
    }

    pub fn halted(&self) -> (r: bool)
        ensures
            r == self@.halted,
    {
        self.halted
    }

    pub fn set_halted(&mut self, v: bool)
        ensures
            final(self)@ == (RegistersView { halted: v, ..old(self)@ }),
    {
        self.halted = v;
    }

    pub fn stopped(&self) -> (r: bool)
        ensures
            r == self@.stopped,
    {
        self.stopped
    }

    pub fn set_stopped(&mut self, v: bool)
        ensures
            final(self)@ == (RegistersView { stopped: v, ..old(self)@ }),
    {
        self.stopped = v;
    }

    pub fn ime(&self) -> (r: bool)
        ensures
            r == self@.ime,
    {
        self.ime
    }

    pub fn set_ime(&mut self, v: bool)
        ensures
            final(self)@ == (RegistersView { ime: v, ..old(self)@ }),
    {
        self.ime = v;
    }

    /// Sets A and F from a 16-bit value; the low nibble of F stays zero.
    pub fn set_af(&mut self, v: u16)
        ensures
            final(self)@ == (RegistersView {
                a: (v / 256) as u8,
                f: (v % 256 / 16 * 16) as u8,
                ..old(self)@
            }),
            final(self)@.wf(),
    {
        self.a = (v / 256) as u8;
        self.f = (v % 256 / 16 * 16) as u8;
    }

    pub fn set_bc(&mut self, v: u16)
        ensures
            final(self)@ == (RegistersView { b: (v / 256) as u8, c: (v % 256) as u8, ..old(self)@ }),
            final(self)@.bc() == v,
    {
        self.b = (v / 256) as u8;
        self.c = (v % 256) as u8;
    }

    pub fn set_de(&mut self, v: u16)
        ensures
            final(self)@ == (RegistersView { d: (v / 256) as u8, e: (v % 256) as u8, ..old(self)@ }),
            final(self)@.de() == v,
    {
        self.d = (v / 256) as u8;
        self.e = (v % 256) as u8;
    }

    pub fn set_hl(&mut self, v: u16)
        ensures
            final(self)@ == (RegistersView { h: (v / 256) as u8, l: (v % 256) as u8, ..old(self)@ }),
            final(self)@.hl() == v,
    {
        self.h = (v / 256) as u8;
        self.l = (v % 256) as u8;
    }
}

} // verus!
