use vstd::prelude::*;
use crate::cartridge::mbc::mbc1::MBC1;
use crate::cartridge::mbc::mbc2::MBC2;
use crate::cartridge::mbc::mbc3::MBC3;
use crate::cartridge::mbc::mbc5::MBC5;
use crate::cartridge::mbc::no_mbc::NoMBC;
use crate::memory::copy_of;
use crate::mmu::mmio::MMIO;

verus! {

#[allow(clippy::upper_case_acronyms)]
pub enum CartridgeType {
    NoMBC(NoMBC),
    MBC1(MBC1),
    MBC2(MBC2),
    MBC3(MBC3),
    MBC5(MBC5),
    MBC7,
}

pub struct Cartridge {
    pub cartridge_type: CartridgeType,
    pub title: String,
}

/// RAM contents after loading `save` into banked RAM: the saved banks replace the first banks.
pub open spec fn loaded_ram(ram: Seq<u8>, save: Seq<u8>) -> Seq<u8> {
    save + ram.subrange(save.len() as int, ram.len() as int)
}

/// A save file fits banked RAM when it is made of whole 8 KiB banks and has no more banks
/// than the cartridge.
pub open spec fn save_fits(ram: Seq<u8>, save: Seq<u8>) -> bool {
    save.len() % 0x2000 == 0 && save.len() <= ram.len()
}

impl Cartridge {
    /// Whether `save` can be loaded into the cartridge RAM.
    pub open spec fn load_ok(&self, save: Seq<u8>) -> bool {
        match self.cartridge_type {
            CartridgeType::MBC1(m) => save_fits(m.external_ram@, save),
            CartridgeType::MBC2(m) => save.len() == 512,
            CartridgeType::MBC3(m) => save_fits(m.external_ram@, save),
            CartridgeType::MBC5(m) => save_fits(m.external_ram@, save),
            _ => true,
        }
    }

    /// The battery-backed RAM of the cartridge, if it has one.
    pub open spec fn sram(&self) -> Option<Seq<u8>> {
        match self.cartridge_type {
            CartridgeType::MBC1(m) => Some(m.external_ram@),
            CartridgeType::MBC2(m) => Some(m.built_in_ram@),
            CartridgeType::MBC3(m) => Some(m.external_ram@),
            CartridgeType::MBC5(m) => Some(m.external_ram@),
            _ => None,
        }
    }

    pub open spec fn read_spec(&self, address: u16) -> u8 {
        match self.cartridge_type {
            CartridgeType::NoMBC(m) => m.read_spec(address),
            CartridgeType::MBC1(m) => m.read_spec(address),
            CartridgeType::MBC2(m) => m.read_spec(address),
            CartridgeType::MBC3(m) => m.read_spec(address),
            CartridgeType::MBC5(m) => m.read_spec(address),
            CartridgeType::MBC7 => 0xFF,
        }
    }

    /// The relation between the cartridge before (`self`) and after (`new`) a write.
    pub open spec fn write_rel(self, new: Cartridge, address: u16, value: u8) -> bool {
        &&& new.title == self.title
        &&& match (self.cartridge_type, new.cartridge_type) {
            (CartridgeType::MBC1(m), CartridgeType::MBC1(n)) => {
                &&& n.external_ram@ == m.ram_write_spec(address, value)
                &&& n == (MBC1 {
                    external_ram: n.external_ram,
                    ..m.register_write_spec(address, value)
                })
            },
            (CartridgeType::MBC2(m), CartridgeType::MBC2(n)) => {
                &&& n.built_in_ram@ == m.ram_write_spec(address, value)
                &&& n == (MBC2 {
                    built_in_ram: n.built_in_ram,
                    ..m.register_write_spec(address, value)
                })
            },
            (CartridgeType::MBC3(m), CartridgeType::MBC3(n)) => {
                &&& n.external_ram@ == m.ram_write_spec(address, value)
                &&& n == (MBC3 {
                    external_ram: n.external_ram,
                    ..m.register_write_spec(address, value)
                })
            },
            (CartridgeType::MBC5(m), CartridgeType::MBC5(n)) => {
                &&& n.external_ram@ == m.ram_write_spec(address, value)
                &&& n == (MBC5 {
                    external_ram: n.external_ram,
                    ..m.register_write_spec(address, value)
                })
            },
            (CartridgeType::NoMBC(m), CartridgeType::NoMBC(n)) => n == m,
            (CartridgeType::MBC7, CartridgeType::MBC7) => true,
            _ => false,
        }
    }

    pub fn new(cartridge_type: CartridgeType, title: &str) -> (r: Self)
        ensures
            r.cartridge_type == cartridge_type,
            r.title@ == title@,
    {
        Cartridge { cartridge_type, title: title.to_owned() }
    }

    /// An empty cartridge: no controller, no ROM, empty title.
    pub fn default() -> (r: Self)
        ensures
            r.cartridge_type matches CartridgeType::NoMBC(m) && m.rom@.len() == 0,
            r.title@ == Seq::<char>::empty(),
    {
        let empty: [u8; 0] = [];
        Cartridge {
            cartridge_type: CartridgeType::NoMBC(NoMBC::new(empty.as_slice())),
            title: String::new(),
        }
    }

    /// Whether the `.sav` file `save` fits the cartridge RAM (see `load_sram`).
    pub fn can_load_sram(&self, save: &[u8]) -> (r: bool)
        ensures
            r == self.load_ok(save@),
    {
        let save_len = save.len();
        match &self.cartridge_type {
            CartridgeType::MBC1(m) => save_len % 0x2000 == 0 && save_len <= m.external_ram.len(),
            CartridgeType::MBC2(m) => save_len == 512,
            CartridgeType::MBC3(m) => save_len % 0x2000 == 0 && save_len <= m.external_ram.len(),
            CartridgeType::MBC5(m) => save_len % 0x2000 == 0 && save_len <= m.external_ram.len(),
            _ => true,
        }
    }

    /// `after` is this cartridge with the save loaded into its RAM, bank by bank (the title
    /// and every register kept).
    pub open spec fn load_rel(self, after: Cartridge, save: Seq<u8>) -> bool {
        &&& after.title == self.title
        &&& match (self.cartridge_type, after.cartridge_type) {
            (CartridgeType::MBC1(m), CartridgeType::MBC1(n)) => n.external_ram@ == loaded_ram(
                m.external_ram@,
                save,
            ) && n == (MBC1 { external_ram: n.external_ram, ..m }),
            (CartridgeType::MBC2(m), CartridgeType::MBC2(n)) => n.built_in_ram@ == save && n == (MBC2 {
                built_in_ram: n.built_in_ram,
                ..m
            }),
            (CartridgeType::MBC3(m), CartridgeType::MBC3(n)) => n.external_ram@ == loaded_ram(
                m.external_ram@,
                save,
            ) && n == (MBC3 { external_ram: n.external_ram, ..m }),
            (CartridgeType::MBC5(m), CartridgeType::MBC5(n)) => n.external_ram@ == loaded_ram(
                m.external_ram@,
                save,
            ) && n == (MBC5 { external_ram: n.external_ram, ..m }),
            (CartridgeType::NoMBC(m), CartridgeType::NoMBC(n)) => n == m,
            (CartridgeType::MBC7, CartridgeType::MBC7) => true,
            _ => false,
        }
    }

    /// Loads the contents of a `.sav` file into cartridge RAM, bank by bank.
    pub fn load_sram(&mut self, save: &[u8])
        requires
            old(self).load_ok(save@),
        ensures
            old(self).load_rel(*final(self), save@),
    {
        match &mut self.cartridge_type {
            CartridgeType::MBC1(mbc1) => {
                load_banks(&mut mbc1.external_ram, save);
            },
            CartridgeType::MBC2(mbc2) => {
                mbc2.built_in_ram = copy_of(save);
            },
            CartridgeType::MBC3(mbc3) => {
                load_banks(&mut mbc3.external_ram, save);
            },
            CartridgeType::MBC5(mbc5) => {
                load_banks(&mut mbc5.external_ram, save);
            },
            _ => {},
        }
    }

    /// All of the cartridge RAM as one byte buffer (banks joined in order);
    /// `None` if the cartridge has no RAM.
    pub fn dump_sram(&self) -> (r: Option<Vec<u8>>)
        ensures
            r is None <==> (self.sram() is None || self.sram()->0.len() == 0),
            r matches Some(v) ==> v@ == self.sram()->0,
    {
        let ram: &Vec<u8> = match &self.cartridge_type {
            CartridgeType::MBC1(mbc1) => &mbc1.external_ram,
            CartridgeType::MBC2(mbc2) => &mbc2.built_in_ram,
            CartridgeType::MBC3(mbc3) => &mbc3.external_ram,
            CartridgeType::MBC5(mbc5) => &mbc5.external_ram,
            _ => {
                return None;
            },
        };
        if ram.len() == 0 {
            None
        } else {
            Some(copy_of(ram.as_slice()))
        }
    }
}

/// Copies `save` over the first banks of `ram`, one 8 KiB bank at a time.
fn load_banks(ram: &mut Vec<u8>, save: &[u8])
    requires
        save_fits(old(ram)@, save@),
    ensures
        final(ram)@ == loaded_ram(old(ram)@, save@),
{
    let ghost original = ram@;
    let mut i: usize = 0;
    while i < save.len()
        invariant
            i <= save@.len(),
            save_fits(original, save@),
            ram@.len() == original.len(),
            forall|k: int| 0 <= k < i ==> ram@[k] == save@[k],
            forall|k: int| i <= k < ram@.len() ==> ram@[k] == original[k],
        decreases save.len() - i,
    {
        ram.set(i, save[i]);
        i = i + 1;
    }
    assert(ram@ =~= loaded_ram(original, save@));
}

impl Cartridge {
    /// Whether a read of `address` is served by the controller in its current state.
    pub fn can_read(&self, address: u16) -> (r: bool)
        ensures
            r == self.read_ok(address),
    {
        match &self.cartridge_type {
            CartridgeType::NoMBC(m) => m.can_read(address),
            CartridgeType::MBC1(m) => m.can_read(address),
            CartridgeType::MBC2(m) => m.can_read(address),
            CartridgeType::MBC3(m) => m.can_read(address),
            CartridgeType::MBC5(m) => m.can_read(address),
            CartridgeType::MBC7 => true,
        }
    }

    /// Whether a write is accepted by the controller in its current state.
    pub fn can_write(&self, address: u16, value: u8) -> (r: bool)
        ensures
            r == self.write_ok(address, value),
    {
        match &self.cartridge_type {
            CartridgeType::MBC1(m) => m.can_write(address, value),
            CartridgeType::MBC2(m) => m.can_write(address, value),
            CartridgeType::MBC3(m) => m.can_write(address, value),
            CartridgeType::MBC5(m) => m.can_write(address, value),
            _ => true,
        }
    }
}

impl MMIO for Cartridge {
    open spec fn read_ok(&self, address: u16) -> bool {
        match self.cartridge_type {
            CartridgeType::NoMBC(m) => m.read_ok(address),
            CartridgeType::MBC1(m) => m.read_ok(address),
            CartridgeType::MBC2(m) => m.read_ok(address),
            CartridgeType::MBC3(m) => m.read_ok(address),
            CartridgeType::MBC5(m) => m.read_ok(address),
            CartridgeType::MBC7 => true,
        }
    }

    open spec fn write_ok(&self, address: u16, value: u8) -> bool {
        match self.cartridge_type {
            CartridgeType::MBC1(m) => m.write_ok(address, value),
            CartridgeType::MBC2(m) => m.write_ok(address, value),
            CartridgeType::MBC3(m) => m.write_ok(address, value),
            CartridgeType::MBC5(m) => m.write_ok(address, value),
            _ => true,
        }
    }

    fn read(&mut self, address: u16) -> (r: u8)
        ensures
            *final(self) == *old(self),
            r == old(self).read_spec(address),
    {
        match &mut self.cartridge_type {
            CartridgeType::NoMBC(nombc) => nombc.read(address),
            CartridgeType::MBC1(mbc1) => mbc1.read(address),
            CartridgeType::MBC2(mbc2) => mbc2.read(address),
            CartridgeType::MBC3(mbc3) => mbc3.read(address),
            CartridgeType::MBC5(mbc5) => mbc5.read(address),
            _ => 0xFF,
        }
    }

    fn write(&mut self, address: u16, value: u8)
        ensures
            old(self).write_rel(*final(self), address, value),
    {
        match &mut self.cartridge_type {
            CartridgeType::MBC1(mbc1) => mbc1.write(address, value),
            CartridgeType::MBC2(mbc2) => mbc2.write(address, value),
            CartridgeType::MBC3(mbc3) => mbc3.write(address, value),
            CartridgeType::MBC5(mbc5) => mbc5.write(address, value),
            _ => {},
        }
    }
}

/// Dumping the RAM right after loading a save that fills it gives the save back.
pub proof fn law_load_then_dump(ram: Seq<u8>, save: Seq<u8>)
    requires
        save_fits(ram, save),
        save.len() == ram.len(),
    ensures
        loaded_ram(ram, save) == save,
{
    assert(loaded_ram(ram, save) =~= save);
}

/// Whether writes to $A000-$BFFF reach RAM cells: the RAM is enabled (for the MBC3 with a RAM
/// bank, not a clock register, selected) and has the size the header gave it.
pub open spec fn ram_mapped(c: Cartridge) -> bool {
    match c.cartridge_type {
        CartridgeType::MBC1(m) => m.ram_active() && m.external_ram@.len() == (m.ram_size / 8) as int
            * 0x2000,
        CartridgeType::MBC2(m) => m.ram_enable,
        CartridgeType::MBC3(m) => m.ram_timer_enable && m.ram_bank_rtc <= 3,
        CartridgeType::MBC5(m) => m.ram_enable,
        _ => false,
    }
}

/// Cartridge RAM keeps what the CPU writes: with the RAM mapped, reading an address of
/// $A000-$BFFF right after writing it gives the value written (the MBC2 keeps only the low
/// nibble and reads the high one as ones).
pub proof fn law_cartridge_ram_read_after_write(c: Cartridge, new: Cartridge, a: u16, v: u8)
    requires
        0xA000 <= a <= 0xBFFF,
        ram_mapped(c),
        c.write_ok(a, v),
        c.write_rel(new, a, v),
    ensures
        new.read_spec(a) == if c.cartridge_type is MBC2 { 0xF0 | (v & 0xF) } else { v },
{
    match (c.cartridge_type, new.cartridge_type) {
        (CartridgeType::MBC1(m), CartridgeType::MBC1(n)) => {
            assert(m.register_write_spec(a, v) == m);
            if m.banking_mode != 0 && m.ram_size <= 8 {
                assert(m.ram_size / 8 <= 1);
                assert(m.ram_or_upper_rom == 0);
            }
            assert(m.ram_read_index(a) == m.ram_write_index(a));
            assert(n.read_spec(a) == v);
        },
        (CartridgeType::MBC2(m), CartridgeType::MBC2(n)) => {
            assert(m.register_write_spec(a, v) == m);
            assert((v & 0xF) & 0xF == v & 0xF) by (bit_vector);
            assert(n.read_spec(a) == 0xF0 | (v & 0xF));
        },
        (CartridgeType::MBC3(m), CartridgeType::MBC3(n)) => {
            assert(m.register_write_spec(a, v) == m);
            let bank = m.ram_bank_rtc;
            assert(bank & 0x03 <= 3) by (bit_vector);
            assert(n.read_spec(a) == v);
        },
        (CartridgeType::MBC5(m), CartridgeType::MBC5(n)) => {
            assert(m.register_write_spec(a, v) == m);
            assert(n.read_spec(a) == v);
        },
        _ => {},
    }
}

} // verus!
