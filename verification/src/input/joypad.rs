use vstd::prelude::*;
use crate::bits::lemma_bit_facts;
use crate::cpu::interrupts::{Interrupt, InterruptHandler};
use crate::mmu::mmio::MMIO;

verus! {

/// The JOYP register ($FF00) and its value at the previous poll.
#[derive(Clone, Copy)]
pub struct Joypad {
    pub joyp: u8,
    pub prev_joyp: u8,
}

/// Which button group JOYP selects (a 0 in bit 5 selects the action buttons,
/// a 0 in bit 4 the direction pad).
#[derive(Clone, Copy, Debug, PartialEq, Eq, Structural)]
pub enum ButtonType {
    Action,
    Direction,
    Neither,
}

/// Mask of the JOYP bits of the pressed keys: key 1 (A or Right) is bit 0, key 2 (B or Left)
/// bit 1, key 3 (Select or Up) bit 2, key 4 (Start or Down) bit 3.
pub open spec fn key_mask(keys: Seq<bool>) -> u8 {
    (if keys[0] { 1u8 } else { 0u8 }) | (if keys[1] { 2u8 } else { 0u8 }) | (if keys[2] {
        4u8
    } else {
        0u8
    }) | (if keys[3] { 8u8 } else { 0u8 })
}

pub open spec fn button_type_of(joyp: u8) -> ButtonType {
    if joyp & 0x20 == 0 {
        ButtonType::Action
    } else if joyp & 0x10 == 0 {
        ButtonType::Direction
    } else {
        ButtonType::Neither
    }
}

impl Joypad {
    /// JOYP after a poll with the given key states (pressed keys read as 0 in the lower nibble
    /// of the selected group).
    pub open spec fn poll_spec(self, action_keys: Seq<bool>, direction_keys: Seq<bool>) -> u8 {
        let released = self.joyp | 0xF;
        match button_type_of(released) {
            ButtonType::Action => released & !key_mask(action_keys),
            ButtonType::Direction => released & !key_mask(direction_keys),
            ButtonType::Neither => released,
        }
    }

    pub fn default() -> (r: Self)
        ensures
            r == (Joypad { joyp: 0xCF, prev_joyp: 0xCF }),
    {
        Joypad { joyp: 0xCF, prev_joyp: 0xCF }
    }

    /// Polls the keys (`true` = held down) of the selected group; a joypad interrupt is
    /// requested when a key of a group with no key pressed before is now pressed.
    pub fn tick(
        &mut self,
        interrupt_handler: &mut InterruptHandler,
        action_keys: [bool; 4],
        direction_keys: [bool; 4],
    )
        ensures
            ({
                let j = old(self).poll_spec(action_keys@, direction_keys@);
                let fire = old(self).prev_joyp & 0xF == 0xF && j & 0xF != 0xF;
                &&& *final(self) == (Joypad { joyp: j, prev_joyp: j })
                &&& *final(interrupt_handler) == if fire {
                    InterruptHandler { intf: old(interrupt_handler).intf | 0b10000, ..*old(interrupt_handler) }
                } else {
                    *old(interrupt_handler)
                }
            }),
    {
        self.reset_pressed_keys();

        match self.get_button_type() {
            ButtonType::Action => self.handle_key_input(action_keys),
            ButtonType::Direction => self.handle_key_input(direction_keys),
            _ => {},
        }

        if (self.prev_joyp & 0xF == 0xF) && (self.joyp & 0xF != 0xF) {
            interrupt_handler.request_interrupt(Interrupt::Joypad);
        }

        self.prev_joyp = self.joyp;
    }

    /// All keys read as released.
    pub fn reset_pressed_keys(&mut self)
        ensures
            *final(self) == (Joypad { joyp: old(self).joyp | 0xF, ..*old(self) }),
    {
        self.joyp = self.joyp | 0xF;
    }

    /// `keys[0]`: A or Right, `keys[1]`: B or Left, `keys[2]`: Select or Up,
    /// `keys[3]`: Start or Down.
    fn handle_key_input(&mut self, keys: [bool; 4])
        ensures
            *final(self) == (Joypad { joyp: old(self).joyp & !key_mask(keys@), ..*old(self) }),
    {
        let mask: u8 = (if keys[0] { 1u8 } else { 0u8 }) | (if keys[1] { 2u8 } else { 0u8 }) | (
        if keys[2] {
            4u8
        } else {
            0u8
        }) | (if keys[3] { 8u8 } else { 0u8 });
        self.joyp = self.joyp & !mask;
    }

    pub fn get_button_type(&self) -> (r: ButtonType)
        ensures
            r == button_type_of(self.joyp),
    {
        if self.joyp & 0x20 == 0 {
            ButtonType::Action
        } else if self.joyp & 0x10 == 0 {
            ButtonType::Direction
        } else {
            ButtonType::Neither
        }
    }
}

impl MMIO for Joypad {
    open spec fn read_ok(&self, address: u16) -> bool {
        true
    }

    open spec fn write_ok(&self, address: u16, value: u8) -> bool {
        true
    }

    fn read(&mut self, _address: u16) -> (r: u8)
        ensures
            *final(self) == *old(self),
            r == old(self).joyp,
    {
        self.joyp
    }

    /// Bits 7 and 6 are unused and always 1; the key bits are read-only.
    fn write(&mut self, _address: u16, value: u8)
        ensures
            *final(self) == (Joypad { joyp: 0xC0 | value | (old(self).joyp & 0xF), ..*old(self) }),
    {
        self.joyp = 0xC0 | value | (self.joyp & 0xF);
    }
}

/// Selecting a group by a write never changes which keys read as pressed, and bits 7-6 read 1.
pub proof fn law_joyp_write(j: Joypad, value: u8)
    ensures
        (0xC0 | value | (j.joyp & 0xF)) & 0xC0 == 0xC0,
        (0xC0 | value | (j.joyp & 0xF)) & 0x30 == value & 0x30,
{
    let x = j.joyp;
    assert((0xC0 | value | (x & 0xF)) & 0xC0 == 0xC0) by (bit_vector);
    assert((0xC0 | value | (x & 0xF)) & 0x30 == value & 0x30) by (bit_vector);
}


/// Polling with exactly one key `k` of the selected group held (0: A or Right, 1: B or Left,
/// 2: Select or Up, 3: Start or Down) clears exactly bit `k` of JOYP's key bits.
pub proof fn law_one_key_clears_its_bit(j: Joypad, action: Seq<bool>, direction: Seq<bool>, k: int)
    requires
        0 <= k < 4,
        action.len() == 4,
        direction.len() == 4,
        (j.joyp & 0x20 == 0 && forall|i: int| 0 <= i < 4 ==> #[trigger] action[i] == (i == k)) || (
        j.joyp & 0x30 == 0x20 && forall|i: int| 0 <= i < 4 ==> #[trigger] direction[i] == (i == k)),
    ensures
        forall|i: u8| i < 4 ==> ((#[trigger] (j.poll_spec(action, direction) >> i)) & 1 == 0 <==> i == k),
{
    lemma_bit_facts();
    let x = j.joyp;
    assert((x | 0xF) & 0x20 == x & 0x20 && (x | 0xF) & 0x10 == x & 0x10);
    assert((x & 0x30 == 0x20) ==> (x & 0x20 != 0 && x & 0x10 == 0));
    let keys = if x & 0x20 == 0 { action } else { direction };
    assert(keys[0] == (k == 0) && keys[1] == (k == 1) && keys[2] == (k == 2) && keys[3] == (k == 3));
    if k == 0 {
        assert(key_mask(keys) == 1u8);
    } else if k == 1 {
        assert(key_mask(keys) == 2u8);
    } else if k == 2 {
        assert(key_mask(keys) == 4u8);
    } else {
        assert(key_mask(keys) == 8u8);
    }
}

} // verus!
