//! The frame buffer and the sprite blit with collision detection.
use vstd::prelude::*;

verus! {

/// Whether column `k` (0 = leftmost) of a sprite row is set.
pub open spec fn sprite_bit(byte: u8, k: int) -> bool {
    byte & (0x80u8 >> (k as u8)) != 0
}

/// A row with one sprite row XORed in from column `x0`; columns past the row's end are dropped.
pub open spec fn xor_row(row: Seq<bool>, x0: int, byte: u8) -> Seq<bool> {
    Seq::new(row.len(), |c: int| if x0 <= c < x0 + 8 && sprite_bit(byte, c - x0) { !row[c] } else { row[c] })
}

/// Whether XORing that sprite row in turns some lit cell off.
pub open spec fn row_collides(row: Seq<bool>, x0: int, byte: u8) -> bool {
    exists|c: int| 0 <= c < row.len() && x0 <= c < x0 + 8 && sprite_bit(byte, c - x0) && #[trigger] row[c]
}

/// The all-unlit 64x32 frame.
pub open spec fn blank_frame() -> Seq<Seq<bool>> {
    Seq::new(32, |r: int| Seq::new(64, |c: int| false))
}

/// The model of a frame buffer.
pub open spec fn frame_view(pb: [[bool; 64]; 32]) -> Seq<Seq<bool>> {
    pb@.map_values(|row: [bool; 64]| row@)
}


/// XORs one sprite row into a frame row from column `x0`, clipping at the right edge.
/// Returns the new row and whether a lit cell was turned off.
pub fn draw_row(row: [bool; 64], x0: u8, byte: u8) -> (r: ([bool; 64], bool))
    requires
        x0 < 64,
    ensures
        r.0@ == xor_row(row@, x0 as int, byte),
        r.1 == row_collides(row@, x0 as int, byte),
{
    let mut out = row;
    let mut hit = false;
    let mut col: u8 = 0;
    while col < 8 && (x0 as usize) + (col as usize) < 64
        invariant
            x0 < 64,
            col <= 8,
            x0 + col <= 64,
            out@.len() == 64,
            forall|c: int|
                0 <= c < 64 ==> #[trigger] out@[c] == if x0 <= c < x0 + col && sprite_bit(byte, c - x0) {
                    !row@[c]
                } else {
                    row@[c]
                },
            hit <==> exists|c: int| 0 <= c < 64 && x0 <= c < x0 + col && sprite_bit(byte, c - x0) && #[trigger] row@[c],
        decreases 8 - col,
    {
        let c = (x0 + col) as usize;
        if byte & (0x80u8 >> col) != 0 {
            assert(sprite_bit(byte, c - x0));
            if out[c] {
                out[c] = false;
                hit = true;
            } else {
                out[c] = true;
            }
        }
        col = col + 1;
    }
    assert(out@ =~= xor_row(row@, x0 as int, byte));
    (out, hit)
}

} // verus!
