use vstd::prelude::*;
use crate::cpu::alu::add8;

verus! {

/// An OAM entry selected for the current line.
#[derive(Debug, Clone, Copy, PartialEq, Eq, Structural)]
pub struct Sprite {
    pub y_pos: u8,
    pub x_pos: u8,
    pub tile_index: u8,
    pub attr: u8,
}

/// Whether the OAM entry with Y byte `raw_y` covers line `ly`: the entry's top line is
/// `raw_y - 16` (so entries partly above the screen still cover their visible lines) and it
/// is 8 or 16 lines high.
pub open spec fn covers_line(raw_y: u8, ly: u8, height_mode: bool) -> bool {
    raw_y <= ly + 16 < raw_y + if height_mode { 8int } else { 16int }
}

/// The sprite made from OAM entry `k`, with the positions as OAM holds them (Y is the top
/// line plus 16, X the left column plus 8).
pub open spec fn sprite_of_entry(oam: Seq<u8>, k: int) -> Sprite {
    Sprite {
        y_pos: oam[4 * k],
        x_pos: oam[4 * k + 1],
        tile_index: oam[4 * k + 2],
        attr: oam[4 * k + 3],
    }
}

/// Position at which a sprite with X `x` goes into a list ordered by X so that the order
/// stays stable: after every sprite whose X is not greater.
pub open spec fn insert_pos(s: Seq<Sprite>, x: u8) -> int
    decreases s.len(),
{
    if s.len() == 0 {
        0
    } else if s.last().x_pos <= x {
        s.len() as int
    } else {
        insert_pos(s.drop_last(), x)
    }
}

/// `sp` inserted into the X-ordered list `s`.
pub open spec fn insert_sorted(s: Seq<Sprite>, sp: Sprite) -> Seq<Sprite> {
    s.insert(insert_pos(s, sp.x_pos), sp)
}

/// The sprites of OAM entries `0..k` that cover line `ly`, at most ten (the first ten found),
/// ordered by X with ties in OAM order.
pub open spec fn sprites_on_line(oam: Seq<u8>, ly: u8, height_mode: bool, k: int) -> Seq<Sprite>
    decreases k,
{
    if k <= 0 {
        Seq::empty()
    } else {
        let prev = sprites_on_line(oam, ly, height_mode, k - 1);
        if covers_line(oam[4 * (k - 1)], ly, height_mode) && prev.len() < 10 {
            insert_sorted(prev, sprite_of_entry(oam, k - 1))
        } else {
            prev
        }
    }
}

proof fn lemma_insert_pos_bounds(s: Seq<Sprite>, x: u8)
    ensures
        0 <= insert_pos(s, x) <= s.len(),
    decreases s.len(),
{
    if s.len() > 0 {
        lemma_insert_pos_bounds(s.drop_last(), x);
    }
}

proof fn lemma_sprites_on_line_len(oam: Seq<u8>, ly: u8, height_mode: bool, k: int)
    ensures
        sprites_on_line(oam, ly, height_mode, k).len() <= 10,
    decreases k,
{
    if k > 0 {
        lemma_sprites_on_line_len(oam, ly, height_mode, k - 1);
        let prev = sprites_on_line(oam, ly, height_mode, k - 1);
        lemma_insert_pos_bounds(prev, sprite_of_entry(oam, k - 1).x_pos);
    }
}

/// The sprites are ordered by X position.
pub open spec fn sorted_by_x(s: Seq<Sprite>) -> bool {
    forall|i: int, j: int| 0 <= i < j < s.len() ==> s[i].x_pos <= s[j].x_pos
}

proof fn lemma_insert_pos_splits(s: Seq<Sprite>, x: u8)
    requires
        sorted_by_x(s),
    ensures
        0 <= insert_pos(s, x) <= s.len(),
        forall|k: int| 0 <= k < insert_pos(s, x) ==> s[k].x_pos <= x,
        forall|k: int| insert_pos(s, x) <= k < s.len() ==> s[k].x_pos > x,
    decreases s.len(),
{
    if s.len() > 0 {
        if s.last().x_pos <= x {
            assert forall|k: int| 0 <= k < s.len() implies s[k].x_pos <= x by {
                if k < s.len() - 1 {
                    assert(s[k].x_pos <= s[s.len() - 1].x_pos);
                }
            }
        } else {
            let d = s.drop_last();
            assert(sorted_by_x(d));
            lemma_insert_pos_splits(d, x);
            assert forall|k: int| 0 <= k < insert_pos(s, x) implies s[k].x_pos <= x by {
                assert(d[k] == s[k]);
            }
            assert forall|k: int| insert_pos(s, x) <= k < s.len() implies s[k].x_pos > x by {
                if k < s.len() - 1 {
                    assert(d[k] == s[k]);
                }
            }
        }
    }
}

/// The sprites of a line come ordered by X position, whatever the order of the entries in OAM.
pub proof fn law_sprites_sorted(oam: Seq<u8>, ly: u8, height_mode: bool, k: int)
    ensures
        sorted_by_x(sprites_on_line(oam, ly, height_mode, k)),
    decreases k,
{
    if k > 0 {
        law_sprites_sorted(oam, ly, height_mode, k - 1);
        let prev = sprites_on_line(oam, ly, height_mode, k - 1);
        let sp = sprite_of_entry(oam, k - 1);
        if covers_line(oam[4 * (k - 1)], ly, height_mode) && prev.len() < 10 {
            lemma_insert_pos_splits(prev, sp.x_pos);
            let p = insert_pos(prev, sp.x_pos);
            let n = prev.insert(p, sp);
            assert forall|i: int, j: int| 0 <= i < j < n.len() implies n[i].x_pos <= n[j].x_pos by {
                if j < p {
                } else if j == p {
                } else if i < p {
                    assert(n[j] == prev[j - 1]);
                } else if i == p {
                    assert(n[j] == prev[j - 1]);
                } else {
                    assert(n[i] == prev[i - 1] && n[j] == prev[j - 1]);
                }
            }
        }
    }
}

/// Finds where a sprite with X `x` goes in the X-ordered `sprites`.
fn find_insert_pos(sprites: &Vec<Sprite>, x: u8) -> (r: usize)
    ensures
        r as int == insert_pos(sprites@, x),
{
    let mut i: usize = sprites.len();
    proof {
        assert(sprites@.subrange(0, i as int) =~= sprites@);
    }
    while i > 0
        invariant
            i <= sprites@.len(),
            insert_pos(sprites@.subrange(0, i as int), x) == insert_pos(sprites@, x),
        decreases i,
    {
        if sprites[i - 1].x_pos <= x {
            return i;
        }
        proof {
            assert(sprites@.subrange(0, i as int).drop_last() =~= sprites@.subrange(
                0,
                i - 1 as int,
            ));
        }
        i = i - 1;
    }
    0
}

/// The sprites on line `ly` (up to 10, in OAM order of discovery), ordered by X position.
///
/// `height_mode` is true for 8x8 sprites. The positions stored are the OAM bytes: the top
/// line plus 16 and the left column plus 8.
pub fn get_current_sprites_per_line(ly: u8, height_mode: bool, oam: &[u8]) -> (r: Vec<Sprite>)
    requires
        oam@.len() % 4 == 0,
    ensures
        r@ == sprites_on_line(oam@, ly, height_mode, (oam@.len() / 4) as int),
{
    let mut sprites: Vec<Sprite> = Vec::new();
    let n: usize = oam.len() / 4;
    let mut k: usize = 0;
    while k < n
        invariant
            k <= n,
            n == oam@.len() / 4,
            4 * n == oam@.len(),
            sprites@ == sprites_on_line(oam@, ly, height_mode, k as int),
        decreases n - k,
    {
        proof {
            lemma_sprites_on_line_len(oam@, ly, height_mode, k as int);
        }
        assert(4 * k + 3 < oam@.len()) by (nonlinear_arith)
            requires
                k < n,
                4 * n == oam@.len(),
        ;
        let len: usize = oam.len();
        assert(4 * k < len);
        let y: u8 = oam[4 * k];
        let sprite_height: u16 = if height_mode { 8 } else { 16 };
        let line: u16 = ly as u16 + 16;

        if (y as u16) <= line && line < y as u16 + sprite_height && sprites.len() < 10 {
            let x: u8 = oam[4 * k + 1];
            let upper_tile_index = oam[4 * k + 2];
            let attr = oam[4 * k + 3];
            let sprite = Sprite::new(y, x, upper_tile_index, attr);
            let pos = find_insert_pos(&sprites, x);
            proof {
                lemma_insert_pos_bounds(sprites@, x);
            }
            sprites.insert(pos, sprite);
        }
        k = k + 1;
    }
    sprites
}

impl Sprite {
    pub open spec fn y_flipped(self) -> bool {
        self.attr & 0x40 != 0
    }

    pub open spec fn x_flipped(self) -> bool {
        self.attr & 0x20 != 0
    }

    pub open spec fn obj_prio(self) -> bool {
        self.attr & 0x80 == 0
    }

    pub fn new(y_pos: u8, x_pos: u8, tile_index: u8, attr: u8) -> (r: Self)
        ensures
            r == (Sprite { y_pos, x_pos, tile_index, attr }),
    {
        Sprite { y_pos, x_pos, tile_index, attr }
    }

    /// Whether `other` starts within the eight pixels of this sprite (only overlap on the
    /// "right" side is checked); no pixel lies past 255.
    pub fn has_overlap(&self, other: &Sprite) -> (r: bool)
        ensures
            r == (self.x_pos <= other.x_pos && other.x_pos < add8(self.x_pos as int, 8)),
    {
        let end: u8 = self.x_pos.wrapping_add(8);
        self.x_pos <= other.x_pos && other.x_pos < end
    }

    pub fn is_y_flipped(&self) -> (r: bool)
        ensures
            r == self.y_flipped(),
    {
        self.attr & 0x40 != 0
    }

    pub fn is_x_flipped(&self) -> (r: bool)
        ensures
            r == self.x_flipped(),
    {
        self.attr & 0x20 != 0
    }

    /// 0 = OBP0, 1 = OBP1 (DMG palette selection, bit 4).
    pub fn get_obp_num(&self) -> (r: u8)
        ensures
            r == (self.attr & 0x10) >> 4,
            r <= 1,
    {
        let a: u8 = self.attr;
        let r: u8 = (a & 0x10) >> 4;
        assert(r <= 1) by (bit_vector)
            requires
                r == (a & 0x10) >> 4,
        ;
        r
    }

    /// CGB palette number (bits 0-2).
    pub fn get_cgb_obp_num(&self) -> (r: u8)
        ensures
            r == self.attr & 0x07,
            r < 8,
    {
        let a: u8 = self.attr;
        assert(a & 0x07 < 8) by (bit_vector);
        a & 0x07
    }

    /// CGB VRAM bank of the tile (bit 3).
    pub fn vbk(&self) -> (r: u8)
        ensures
            r == (self.attr & 0x08) >> 3,
            r <= 1,
    {
        let a: u8 = self.attr;
        assert((a & 0x08) >> 3 <= 1) by (bit_vector);
        (a & 0x08) >> 3
    }

    /// True if bit 7 of the attributes is 0: the sprite is drawn over the background.
    pub fn is_obj_prio(&self) -> (r: bool)
        ensures
            r == self.obj_prio(),
    {
        self.attr & 0x80 == 0
    }
}

} // verus!
