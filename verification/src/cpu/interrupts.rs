use vstd::prelude::*;

verus! {

/// The five interrupt sources, in order of priority.
#[allow(clippy::upper_case_acronyms)]
#[derive(Debug, Clone, Copy, PartialEq, Eq, Structural)]
pub enum Interrupt {
    VBlank,
    STAT,
    Timer,
    Serial,
    Joypad,
}

/// Bit of an interrupt in IE and IF.
pub open spec fn interrupt_bit(interrupt: Interrupt) -> u8 {
    match interrupt {
        Interrupt::VBlank => 0b1u8,
        Interrupt::STAT => 0b10u8,
        Interrupt::Timer => 0b100u8,
        Interrupt::Serial => 0b1000u8,
        Interrupt::Joypad => 0b10000u8,
    }
}

/// Address the CPU jumps to when it services an interrupt.
pub open spec fn vector_of(interrupt: Interrupt) -> u16 {
    match interrupt {
        Interrupt::VBlank => 0x40u16,
        Interrupt::STAT => 0x48u16,
        Interrupt::Timer => 0x50u16,
        Interrupt::Serial => 0x58u16,
        Interrupt::Joypad => 0x60u16,
    }
}

impl Interrupt {
    /// The handler address of the interrupt.
    pub fn vector(&self) -> (r: u16)
        ensures
            r == vector_of(*self),
    {
        match self {
            Interrupt::VBlank => 0x40,
            Interrupt::STAT => 0x48,
            Interrupt::Timer => 0x50,
            Interrupt::Serial => 0x58,
            Interrupt::Joypad => 0x60,
        }
    }
}

/// Interrupt enable (`IE`, $FFFF) and interrupt flag (`IF`, $FF0F) registers.
#[derive(Clone, Copy)]
pub struct InterruptHandler {
    pub inte: u8,
    pub intf: u8,
}

impl InterruptHandler {
    pub fn default() -> (r: Self)
        ensures
            r == (InterruptHandler { inte: 0, intf: 0 }),
    {
        InterruptHandler { inte: 0, intf: 0 }
    }

    /// For each of the five interrupts in priority order, `Some` exactly when its IE bit is set.
    pub fn get_enabled_interrupts(&self) -> (r: [Option<Interrupt>; 5])
        ensures
            r@ == seq![
                if self.inte & 0b1 != 0 { Some(Interrupt::VBlank) } else { None },
                if self.inte & 0b10 != 0 { Some(Interrupt::STAT) } else { None },
                if self.inte & 0b100 != 0 { Some(Interrupt::Timer) } else { None },
                if self.inte & 0b1000 != 0 { Some(Interrupt::Serial) } else { None },
                if self.inte & 0b10000 != 0 { Some(Interrupt::Joypad) } else { None },
            ],
    {
        let vblank = if (self.inte & 0b1) != 0 { Some(Interrupt::VBlank) } else { None };
        let stat = if (self.inte & 0b10) != 0 { Some(Interrupt::STAT) } else { None };
        let timer = if (self.inte & 0b100) != 0 { Some(Interrupt::Timer) } else { None };
        let serial = if (self.inte & 0b1000) != 0 { Some(Interrupt::Serial) } else { None };
        let joypad = if (self.inte & 0b10000) != 0 { Some(Interrupt::Joypad) } else { None };

        let r = [vblank, stat, timer, serial, joypad];
        assert(r@ =~= seq![vblank, stat, timer, serial, joypad]);
        r
    }

    pub fn is_interrupt_requested(&self, interrupt: Interrupt) -> (r: bool)
        ensures
            r == (self.intf & interrupt_bit(interrupt) != 0),
    {
        match interrupt {
            Interrupt::VBlank => self.intf & 0b1 != 0,
            Interrupt::STAT => self.intf & 0b10 != 0,
            Interrupt::Timer => self.intf & 0b100 != 0,
            Interrupt::Serial => self.intf & 0b1000 != 0,
            Interrupt::Joypad => self.intf & 0b10000 != 0,
        }
    }

    pub fn reset_if(&mut self, interrupt: Interrupt)
        ensures
            final(self).inte == old(self).inte,
            final(self).intf == old(self).intf & !interrupt_bit(interrupt),
    {
        match interrupt {
            Interrupt::VBlank => self.intf = self.intf & !0b1u8,
            Interrupt::STAT => self.intf = self.intf & !0b10u8,
            Interrupt::Timer => self.intf = self.intf & !0b100u8,
            Interrupt::Serial => self.intf = self.intf & !0b1000u8,
            Interrupt::Joypad => self.intf = self.intf & !0b10000u8,
        }
    }

    pub fn request_interrupt(&mut self, interrupt: Interrupt)
        ensures
            final(self).inte == old(self).inte,
            final(self).intf == old(self).intf | interrupt_bit(interrupt),
    {
        match interrupt {
            Interrupt::VBlank => self.intf = self.intf | 0b1,
            Interrupt::STAT => self.intf = self.intf | 0b10,
            Interrupt::Timer => self.intf = self.intf | 0b100,
            Interrupt::Serial => self.intf = self.intf | 0b1000,
            Interrupt::Joypad => self.intf = self.intf | 0b10000,
        }
    }
}

/// A requested interrupt reads back as requested; requesting it again changes nothing,
/// and resetting it afterwards clears exactly its bit.
pub proof fn law_request_then_query(ih: InterruptHandler, i: Interrupt, j: Interrupt)
    ensures
        (ih.intf | interrupt_bit(i)) & interrupt_bit(i) != 0,
        ((ih.intf | interrupt_bit(i)) | interrupt_bit(i)) == ih.intf | interrupt_bit(i),
        (ih.intf & !interrupt_bit(i)) & interrupt_bit(i) == 0,
        i != j ==> ((ih.intf | interrupt_bit(i)) & interrupt_bit(j) != 0 <==> ih.intf
            & interrupt_bit(j) != 0),
        i != j ==> ((ih.intf & !interrupt_bit(i)) & interrupt_bit(j) != 0 <==> ih.intf
            & interrupt_bit(j) != 0),
{
    let f = ih.intf;
    let m = interrupt_bit(i);
    let k = interrupt_bit(j);
    assert((f | m) & m != 0 && ((f | m) | m) == f | m && (f & !m) & m == 0) by (bit_vector)
        requires
            m == 1 || m == 2 || m == 4 || m == 8 || m == 16,
    ;
    if i != j {
        assert(m != k);
        assert(((f | m) & k != 0 <==> f & k != 0) && ((f & !m) & k != 0 <==> f & k != 0))
            by (bit_vector)
            requires
                m == 1 || m == 2 || m == 4 || m == 8 || m == 16,
                k == 1 || k == 2 || k == 4 || k == 8 || k == 16,
                m != k,
        ;
    }
}

} // verus!
