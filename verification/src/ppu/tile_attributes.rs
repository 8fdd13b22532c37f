use vstd::prelude::*;

verus! {

/// Background map attributes of a CGB tile (VRAM bank 1).
#[derive(Clone, Copy, PartialEq, Eq, Structural)]
pub struct TileAttribute {
    pub bg_to_oam: BgOamPrio,
    pub v_flip: bool,
    pub h_flip: bool,
    pub vram_bank: u8,
    pub bgp: u8,
}

#[derive(Debug, Clone, Copy, PartialEq, Eq, Structural)]
pub enum BgOamPrio {
    OAMPrio,
    BGPrio,
}

/// The attributes encoded in a byte: bit 7 priority, bit 6 vertical flip, bit 5 horizontal flip,
/// bit 3 VRAM bank, bits 0-2 palette.
pub open spec fn tile_attribute_of(value: u8) -> TileAttribute {
    TileAttribute {
        bg_to_oam: if value & 0x80 == 0 { BgOamPrio::OAMPrio } else { BgOamPrio::BGPrio },
        v_flip: value & 0x40 != 0,
        h_flip: value & 0x20 != 0,
        vram_bank: (value & 0x08) >> 3,
        bgp: value & 0x07,
    }
}

impl BgOamPrio {
    pub fn from(value: u8) -> (r: Self)
        requires
            value <= 1,
        ensures
            r == if value == 0 { BgOamPrio::OAMPrio } else { BgOamPrio::BGPrio },
    {
        if value == 0 {
            BgOamPrio::OAMPrio
        } else {
            BgOamPrio::BGPrio
        }
    }
}

impl TileAttribute {
    pub fn from(value: u8) -> (r: Self)
        ensures
            r == tile_attribute_of(value),
            r.vram_bank <= 1,
            r.bgp < 8,
    {
        let prio: u8 = (value & 0x80) >> 7;
        let v6: u8 = (value & 0x40) >> 6;
        let v5: u8 = (value & 0x20) >> 5;
        assert(prio <= 1 && (prio == 0 <==> value & 0x80 == 0)) by (bit_vector)
            requires
                prio == (value & 0x80) >> 7,
        ;
        assert((v6 != 0 <==> value & 0x40 != 0) && (v5 != 0 <==> value & 0x20 != 0)) by (bit_vector)
            requires
                v6 == (value & 0x40) >> 6,
                v5 == (value & 0x20) >> 5,
        ;
        assert((value & 0x08) >> 3 <= 1 && value & 0x07 < 8) by (bit_vector);
        TileAttribute {
            bg_to_oam: BgOamPrio::from(prio),
            v_flip: v6 != 0,
            h_flip: v5 != 0,
            vram_bank: (value & 0x08) >> 3,
            bgp: value & 0x07,
        }
    }
}

} // verus!
