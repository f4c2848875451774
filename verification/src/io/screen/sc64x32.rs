//! The display of the machine: 64 by 32 pixels, one bit each.
use super::draw::Draw;
use super::viewport::Viewport;
use vstd::prelude::*;

verus! {

/// A row of the display that holds only the sprite row `scan`, its leftmost
/// pixel in column `vx`. The sprite wraps from the right edge to the left.
/// Bit 63 of a row is column 0.
pub open spec fn rotated(scan: u8, vx: u8) -> u64 {
    let by = ((8 + vx) % 64) as u64;
    if by == 0 {
        scan as u64
    } else {
        (scan as u64) >> by | (scan as u64) << (64 - by) as u64
    }
}

/// Whether the pixel in column `x` of a row is set.
pub open spec fn pixel(row: u64, x: u64) -> bool {
    (row >> (63 - x) as u64) & 1 == 1
}

/// The column of a sprite at `vx` that falls on column `x` of the display.
pub open spec fn sprite_column(x: u64, vx: u8) -> u64 {
    ((x + 64 - vx % 64) % 64) as u64
}

/// A sprite row occupies the eight columns from `vx` on, which wrap at 64,
/// with its most significant bit leftmost: the pixel in column `x` is set
/// exactly if a bit of `scan` falls on `x` and is set.
pub proof fn lemma_rotated_pixels(scan: u8, vx: u8, x: u64)
    requires
        x < 64,
    ensures
        pixel(rotated(scan, vx), x) == (sprite_column(x, vx) < 8 && (scan >> (7 - sprite_column(
            x,
            vx,
        )) as u8) & 1 == 1),
{
    let s = scan as u64;
    let v = vx as u64;
    let col = sprite_column(x, vx);
    assert(((if (8 + v) % 64 == 0 {
        s
    } else {
        s >> (((8 + v) % 64) as u64) | s << ((64 - (8 + v) % 64) as u64)
    }) >> ((63 - x) as u64)) & 1 == 1 <==> (x + 64 - v % 64) % 64 < 8 && (s >> ((7 - (x + 64 - v
        % 64) % 64) as u64)) & 1 == 1) by (bit_vector)
        requires
            x < 64,
            s < 256,
            v < 256,
    ;
    if col < 8 {
        assert((s >> ((7 - col) as u64)) & 1 == 1 <==> (scan >> ((7 - col) as u8)) & 1 == 1)
            by (bit_vector)
            requires
                col < 8,
                s == scan as u64,
        ;
    }
}

/// The rows of the display after the first `k` rows of the sprite `buf` were
/// drawn at `(vx, vy)`: each is combined by exclusive or with the row of the
/// display that it falls on. The sprite wraps from the bottom edge to the top.
pub open spec fn drawn(rows: Seq<u64>, vx: u8, vy: u8, buf: Seq<u8>, k: nat) -> Seq<u64>
    decreases k,
{
    if k == 0 {
        rows
    } else {
        let before = drawn(rows, vx, vy, buf, (k - 1) as nat);
        let y = (k - 1 + vy) % 32;
        before.update(y, before[y] ^ rotated(buf[k - 1], vx))
    }
}

/// Whether row `k` of the sprite erases a pixel: whether a pixel of it falls
/// on one that is set.
pub open spec fn erases(rows: Seq<u64>, vx: u8, vy: u8, buf: Seq<u8>, k: nat) -> bool {
    drawn(rows, vx, vy, buf, k)[(k + vy) % 32] & rotated(buf[k as int], vx) != 0
}

/// The pixels of a row as text, the leftmost first: a block for a pixel that
/// is set, a blank for one that is not.
pub open spec fn rendering(row: u64) -> Seq<char> {
    Seq::new(
        64,
        |x: int|
            if (row >> (63 - x) as u64) & 1 == 1 {
                '█'
            } else {
                ' '
            },
    )
}

/// The rows of the display that the first `k` rows of the sprite changed, in
/// the order of the sprite's rows: the number of each and its pixels after
/// the change. A sprite row without pixels changes nothing.
pub open spec fn scans(rows: Seq<u64>, vx: u8, vy: u8, buf: Seq<u8>, k: nat) -> Seq<
    (usize, Seq<char>),
>
    decreases k,
{
    if k == 0 {
        Seq::empty()
    } else {
        let before = scans(rows, vx, vy, buf, (k - 1) as nat);
        let y = (k - 1 + vy) % 32;
        if rotated(buf[k - 1], vx) != 0 {
            before.push((y as usize, rendering(drawn(rows, vx, vy, buf, k)[y])))
        } else {
            before
        }
    }
}

/// The row of the sprite that falls on row `y` of the display, if one of the
/// first `k` rows does, for a sprite of at most 32 rows, of which no two fall
/// on the same row.
pub open spec fn sprite_row(vy: u8, k: nat, y: int) -> Option<int> {
    let row = (y + 32 - vy % 32) % 32;
    if row < k {
        Some(row)
    } else {
        None
    }
}

/// Drawing a sprite of at most 32 rows combines each row of the display with
/// the row of the sprite that falls on it, and leaves the other rows.
pub proof fn lemma_drawn_rows(rows: Seq<u64>, vx: u8, vy: u8, buf: Seq<u8>, k: nat)
    requires
        rows.len() == 32,
        k <= buf.len(),
        k <= 32,
    ensures
        drawn(rows, vx, vy, buf, k).len() == 32,
        forall|y: int|
            0 <= y < 32 ==> #[trigger] drawn(rows, vx, vy, buf, k)[y] == match sprite_row(
                vy,
                k,
                y,
            ) {
                Some(row) => rows[y] ^ rotated(buf[row], vx),
                None => rows[y],
            },
    decreases k,
{
    if k > 0 {
        let before = drawn(rows, vx, vy, buf, (k - 1) as nat);
        let at = (k - 1 + vy) % 32;
        lemma_drawn_rows(rows, vx, vy, buf, (k - 1) as nat);
        assert(drawn(rows, vx, vy, buf, k) == before.update(
            at,
            before[at] ^ rotated(buf[k - 1], vx),
        ));
        assert forall|y: int| 0 <= y < 32 implies #[trigger] drawn(rows, vx, vy, buf, k)[y]
            == match sprite_row(vy, k, y) {
            Some(row) => rows[y] ^ rotated(buf[row], vx),
            None => rows[y],
        } by {
            let row = (y + 32 - vy % 32) % 32;
            assert(y == at <==> row == k - 1);
            assert(before[y] == match sprite_row(vy, (k - 1) as nat, y) {
                Some(row) => rows[y] ^ rotated(buf[row], vx),
                None => rows[y],
            });
        }
    }
}

/// Drawing a sprite of at most 32 rows twice at the same place restores the
/// display.
pub proof fn lemma_drawn_twice(rows: Seq<u64>, vx: u8, vy: u8, buf: Seq<u8>)
    requires
        rows.len() == 32,
        buf.len() <= 32,
    ensures
        drawn(drawn(rows, vx, vy, buf, buf.len()), vx, vy, buf, buf.len()) == rows,
{
    let once = drawn(rows, vx, vy, buf, buf.len());
    let twice = drawn(once, vx, vy, buf, buf.len());
    lemma_drawn_rows(rows, vx, vy, buf, buf.len());
    lemma_drawn_rows(once, vx, vy, buf, buf.len());
    assert forall|y: int| 0 <= y < 32 implies twice[y] == rows[y] by {
        match sprite_row(vy, buf.len(), y) {
            Some(row) => {
                let row = rows[y];
                let sprite = rotated(buf[sprite_row(vy, buf.len(), y)->Some_0], vx);
                assert((row ^ sprite) ^ sprite == row) by (bit_vector);
            },
            None => {},
        }
    }
    assert(twice =~= rows);
}

/// A display of 64 by 32 pixels.
#[derive(Debug, Clone, Copy)]
pub struct Sc64x32 {
    gd: [u64; 32],
}

impl View for Sc64x32 {
    type V = Seq<u64>;

    /// The 32 rows, the top row first. Bit 63 of a row is its leftmost pixel.
    closed spec fn view(&self) -> Seq<u64> {
        self.gd@
    }
}

/// Combining a row with a sprite row changes it exactly if the sprite row
/// has a pixel, and erases a pixel exactly if one of them falls on a pixel
/// that is set.
proof fn lemma_combine(curr: u64, sprite: u64)
    ensures
        (curr ^ sprite) != curr <==> sprite != 0,
        curr & (curr ^ sprite) != curr <==> curr & sprite != 0,
        curr & sprite != 0 ==> sprite != 0,
{
    assert(((curr ^ sprite) != curr <==> sprite != 0) && (curr & (curr ^ sprite) != curr <==> curr
        & sprite != 0) && (curr & sprite != 0 ==> sprite != 0)) by (bit_vector);
}

/// The sprite row `scan` with its leftmost pixel in column `vx`.
fn rotate(scan: u8, vx: u8) -> (row: u64)
    ensures
        row == rotated(scan, vx),
{
    let by = (8 + vx as u32) % 64;
    if by == 0 {
        scan as u64
    } else {
        (scan as u64) >> by | (scan as u64) << (64 - by)
    }
}

/// The pixels of `row` as text.
fn render(row: u64) -> (text: String)
    ensures
        text@ == rendering(row),
{
    let mut text = String::new();
    let mut x: u32 = 0;
    proof {
        reveal_strlit("█");
        reveal_strlit(" ");
    }
    while x < 64
        invariant
            x <= 64,
            text@ == rendering(row).take(x as int),
            "█"@ == seq!['█'],
            " "@ == seq![' '],
        decreases 64 - x,
    {
        text.append(
            if (row >> (63 - x)) & 1 == 1 {
                "█"
            } else {
                " "
            },
        );
        x += 1;
        assert(text@ =~= rendering(row).take(x as int));
    }
    assert(rendering(row).take(64) =~= rendering(row));
    text
}

impl Sc64x32 {
    /// A display without a pixel set.
    pub fn new() -> (screen: Self)
        ensures
            screen@ == Seq::new(32, |y: int| 0u64),
    {
        let screen = Sc64x32 { gd: [0;32] };
        assert(screen@ =~= Seq::new(32, |y: int| 0u64));
        screen
    }

    /// The display has 32 rows.
    pub proof fn lemma_len(&self)
        ensures
            self@.len() == 32,
    {
    }
}

impl Default for Sc64x32 {
    fn default() -> (screen: Self)
        ensures
            screen@ == Seq::new(32, |y: int| 0u64),
    {
        Sc64x32::new()
    }
}

impl Viewport for Sc64x32 {
    fn width(&self) -> (width: usize)
        ensures
            width == 64,
    {
        64
    }

    fn height(&self) -> (height: usize)
        ensures
            height == 32,
    {
        32
    }

    fn clear(&mut self)
        ensures
            final(self)@ == Seq::new(32, |y: int| 0u64),
    {
        self.gd = [0;32];
        assert(self@ =~= Seq::new(32, |y: int| 0u64));
    }

    /// Draws the sprite by exclusive or, row by row, and reports the rows
    /// that changed and whether a pixel was erased.
    fn draw(&mut self, vx: u8, vy: u8, buf: &[u8]) -> (draw: Draw)
        ensures
            final(self)@ == drawn(old(self)@, vx, vy, buf@, buf@.len()),
            draw.collision == exists|k: nat|
                k < buf@.len() && #[trigger] erases(old(self)@, vx, vy, buf@, k),
            draw.scans@.len() == scans(old(self)@, vx, vy, buf@, buf@.len()).len(),
            forall|j: int|
                0 <= j < draw.scans@.len() ==> (#[trigger] draw.scans@[j]).0 == scans(
                    old(self)@,
                    vx,
                    vy,
                    buf@,
                    buf@.len(),
                )[j].0 && draw.scans@[j].1@ == scans(old(self)@, vx, vy, buf@, buf@.len())[j].1,
    {
        let mut draw = Draw::new(buf.len());
        let ghost rows = self@;
        let mut y: usize = 0;
        while y < buf.len()
            invariant
                y <= buf@.len(),
                rows == old(self)@,
                self@.len() == 32,
                self@ == drawn(rows, vx, vy, buf@, y as nat),
                draw.collision == exists|k: nat|
                    k < y && #[trigger] erases(rows, vx, vy, buf@, k),
                draw.scans@.len() == scans(rows, vx, vy, buf@, y as nat).len(),
                forall|j: int|
                    0 <= j < draw.scans@.len() ==> (#[trigger] draw.scans@[j]).0 == scans(
                        rows,
                        vx,
                        vy,
                        buf@,
                        y as nat,
                    )[j].0 && draw.scans@[j].1@ == scans(rows, vx, vy, buf@, y as nat)[j].1,
            decreases buf@.len() - y,
        {
            let ghost collided = draw.collision;
            let scan = buf[y];
            let ypos = (y % 32 + vy as usize) % 32;
            assert(ypos == (y + vy) % 32);
            let curr = self.gd[ypos];
            let sprite = rotate(scan, vx);
            let next = curr ^ sprite;
            proof {
                lemma_combine(curr, sprite);
                assert(erases(rows, vx, vy, buf@, y as nat) == (curr & sprite != 0));
            }
            if next != curr {
                let text = render(next);
                draw.scans.push((ypos, text));
                self.gd[ypos] = next;

                if curr & next != curr {
                    draw.collision = true;
                }
            }
            proof {
                assert(self@ =~= drawn(rows, vx, vy, buf@, (y + 1) as nat));
                let erased = erases(rows, vx, vy, buf@, y as nat);
                assert(draw.collision == (collided || erased));
                if exists|k: nat| k < y + 1 && #[trigger] erases(rows, vx, vy, buf@, k) {
                    let k = choose|k: nat| k < y + 1 && #[trigger] erases(rows, vx, vy, buf@, k);
                    if k < y {
                        assert(collided);
                    }
                }
            }
            y += 1;
        }
        draw
    }
}

} // verus!
