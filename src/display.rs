use vstd::prelude::*;
use vstd::arithmetic::div_mod::lemma_fundamental_div_mod_converse;

verus! {

/// Width of the screen in pixels.
pub const SCREEN_WIDTH: usize = 64;

/// Height of the screen in pixels.
pub const SCREEN_HEIGHT: usize = 32;

/// Number of pixels on the screen.
pub const SCREEN_SIZE: usize = 2048;

/// A sprite of `len` unpacked values (8 per row) drawn at `(x, y)` stays on the screen.
pub open spec fn sprite_fits(x: u8, y: u8, len: nat) -> bool {
    x + 8 <= SCREEN_WIDTH && y + len / 8 <= SCREEN_HEIGHT
}

/// The pixel at screen index `i` lies under a sprite of `len` values (8 per row)
/// drawn at `(x, y)`. Values past the last whole row of 8 are not drawn.
pub open spec fn in_sprite(x: u8, y: u8, len: nat, i: int) -> bool {
    let row = i / 64 - y;
    let col = i % 64 - x;
    &&& 0 <= i < SCREEN_SIZE
    &&& 0 <= row < len / 8
    &&& 0 <= col < 8
}

/// The position in the sprite of the value that lands on screen index `i`.
pub open spec fn cell(x: u8, y: u8, i: int) -> int {
    (i / 64 - y) * 8 + (i % 64 - x)
}

/// A pixel `p` after the sprite value `v` is XOR-ed onto it: `(p ^ v) != 0`.
pub open spec fn pixel_after(p: bool, v: u8) -> bool {
    if p {
        v != 1
    } else {
        v != 0
    }
}

/// The screen after XOR-ing `sprite` onto `screen` at `(x, y)`.
pub open spec fn drawn(screen: Seq<bool>, x: u8, y: u8, sprite: Seq<u8>) -> Seq<bool> {
    Seq::new(
        screen.len(),
        |i: int|
            if in_sprite(x, y, sprite.len(), i) {
                pixel_after(screen[i], sprite[cell(x, y, i)])
            } else {
                screen[i]
            },
    )
}

/// Drawing `sprite` at `(x, y)` on `screen` meets a set pixel with a value of 1.
pub open spec fn collides(screen: Seq<bool>, x: u8, y: u8, sprite: Seq<u8>) -> bool {
    exists|i: int|
        0 <= i < screen.len() && screen[i] && #[trigger] in_sprite(x, y, sprite.len(), i)
            && sprite[cell(x, y, i)] == 1
}

/// A screen of `len` unset pixels.
pub open spec fn blank(len: nat) -> Seq<bool> {
    Seq::new(len, |i: int| false)
}

/// Every value of `sprite` is 0 or 1.
pub open spec fn unpacked(sprite: Seq<u8>) -> bool {
    forall|k: int| 0 <= k < sprite.len() ==> #[trigger] sprite[k] <= 1
}

/// A pixel under a sprite takes a value that lies inside the sprite.
proof fn lemma_cell_in_sprite(x: u8, y: u8, len: nat, i: int)
    requires
        in_sprite(x, y, len, i),
    ensures
        0 <= cell(x, y, i) < len / 8 * 8,
{
    let row = i / 64 - y;
    let col = i % 64 - x;
    let rows = len / 8;
    assert(0 <= row * 8 + col < rows * 8) by (nonlinear_arith)
        requires 0 <= row < rows, 0 <= col < 8;
}

/// Drawing a sprite of 0s and 1s twice at the same place gives back the screen it
/// was drawn on.
pub proof fn lemma_draw_twice_restores(screen: Seq<bool>, x: u8, y: u8, sprite: Seq<u8>)
    requires
        unpacked(sprite),
    ensures
        drawn(drawn(screen, x, y, sprite), x, y, sprite) == screen,
{
    assert forall|i: int| 0 <= i < screen.len() && in_sprite(x, y, sprite.len(), i) implies
        #[trigger] sprite[cell(x, y, i)] <= 1 by {
        lemma_cell_in_sprite(x, y, sprite.len(), i);
    }
    assert(drawn(drawn(screen, x, y, sprite), x, y, sprite) =~= screen);
}

/// On a blank screen, a first draw of a sprite of 0s and 1s collides with nothing;
/// drawing it a second time at the same place collides when the sprite has a set
/// value, and leaves the screen blank.
pub proof fn lemma_draw_twice_on_blank(x: u8, y: u8, sprite: Seq<u8>)
    requires
        sprite_fits(x, y, sprite.len()),
        unpacked(sprite),
    ensures
        !collides(blank(SCREEN_SIZE as nat), x, y, sprite),
        (exists|k: int| 0 <= k < sprite.len() / 8 * 8 && sprite[k] != 0) ==> collides(
            drawn(blank(SCREEN_SIZE as nat), x, y, sprite),
            x,
            y,
            sprite,
        ),
        drawn(drawn(blank(SCREEN_SIZE as nat), x, y, sprite), x, y, sprite) == blank(
            SCREEN_SIZE as nat,
        ),
{
    let screen = blank(SCREEN_SIZE as nat);
    lemma_draw_twice_restores(screen, x, y, sprite);
    if exists|k: int| 0 <= k < sprite.len() / 8 * 8 && sprite[k] != 0 {
        let k = choose|k: int| 0 <= k < sprite.len() / 8 * 8 && sprite[k] != 0;
        lemma_cell_position(x, y, (sprite.len() / 8) as int, k);
        let i = (y + k / 8) * 64 + x + k % 8;
        assert(in_sprite(x, y, sprite.len(), i) && cell(x, y, i) == k);
        assert(drawn(screen, x, y, sprite)[i]);
    }
}

/// A monochrome surface that sprites are drawn on.
pub trait ChipDisplay: Sized {
    /// The pixels, row-major: the pixel at `(x, y)` is at `x + 64 * y`.
    spec fn pixels(&self) -> Seq<bool>;

    /// Unsets every pixel.
    fn clear(&mut self)
        ensures
            final(self).pixels() == blank(old(self).pixels().len()),
    ;

    /// XORs the rows of `sprite`, 8 unpacked values each, onto the pixels from
    /// `(x, y)` on: row `r` lands on screen row `y + r`, and a pixel becomes
    /// `(pixel ^ value) != 0`. Returns whether a set pixel met a value of 1.
    /// Values past the last whole row are ignored; a sprite of at least one row
    /// must lie on the screen.
    fn draw_sprite(&mut self, x: u8, y: u8, sprite: &[u8]) -> (flip: bool)
        requires
            sprite@.len() < 8 || sprite_fits(x, y, sprite@.len() as nat),
        ensures
            final(self).pixels() == drawn(old(self).pixels(), x, y, sprite@),
            flip == collides(old(self).pixels(), x, y, sprite@),
    ;
}

/// A 64 by 32 pixel grid held in memory.
pub struct MatrixDisplay {
    pub screen: [bool; 2048],
}

impl MatrixDisplay {
    /// A screen with every pixel unset.
    pub fn new() -> (r: Self)
        ensures
            r.pixels() == blank(SCREEN_SIZE as nat),
    {
        let r = Self { screen: [false; 2048] };
        assert(r.screen@ =~= blank(SCREEN_SIZE as nat));
        r
    }
}

/// The screen index of the value at `k` of a sprite drawn at `(x, y)` lies under that value.
proof fn lemma_cell_position(x: u8, y: u8, rows: int, k: int)
    requires
        x + 8 <= 64,
        y + rows <= 32,
        0 <= k < rows * 8,
    ensures
        ({
            let i = (y + k / 8) * 64 + x + k % 8;
            &&& 0 <= i < SCREEN_SIZE
            &&& i / 64 - y == k / 8
            &&& i % 64 - x == k % 8
            &&& (i / 64 - y) * 8 + (i % 64 - x) == k
        }),
{
    let row = k / 8;
    let col = k % 8;
    lemma_fundamental_div_mod_converse(k, 8, row, col);
    assert(0 <= row < rows) by (nonlinear_arith)
        requires 0 <= k < rows * 8, row == k / 8;
    let i = (y + row) * 64 + x + col;
    lemma_fundamental_div_mod_converse(i, 64, y + row, x + col);
    assert(i < SCREEN_SIZE) by (nonlinear_arith)
        requires i == (y + row) * 64 + x + col, y + row < 32, x + col < 64;
}

impl ChipDisplay for MatrixDisplay {
    open spec fn pixels(&self) -> Seq<bool> {
        self.screen@
    }

    fn clear(&mut self) {
        let mut i: usize = 0;
        while i < SCREEN_SIZE
            invariant
                0 <= i <= SCREEN_SIZE,
                self.screen@.len() == SCREEN_SIZE,
                forall|j: int| 0 <= j < i ==> !self.screen@[j],
            decreases SCREEN_SIZE - i,
        {
            self.screen[i] = false;
            i += 1;
        }
        assert(self.screen@ =~= blank(SCREEN_SIZE as nat));
    }

    fn draw_sprite(&mut self, x: u8, y: u8, sprite: &[u8]) -> (flip: bool) {
        let ghost start = self.screen@;
        let ghost len = sprite@.len();
        let rows = sprite.len() / 8;
        let cells = rows * 8;
        let mut flip = false;
        let mut k: usize = 0;
        while k < cells
            invariant
                cells > 0 ==> sprite_fits(x, y, len),
                len == sprite@.len(),
                rows == len / 8,
                cells == rows * 8,
                0 <= k <= cells,
                self.screen@.len() == SCREEN_SIZE,
                start.len() == SCREEN_SIZE,
                forall|i: int|
                    #![trigger self.screen@[i]]
                    0 <= i < SCREEN_SIZE ==> self.screen@[i] == (if in_sprite(x, y, len, i)
                        && cell(x, y, i) < k {
                        pixel_after(start[i], sprite@[cell(x, y, i)])
                    } else {
                        start[i]
                    }),
                flip == exists|i: int|
                    0 <= i < SCREEN_SIZE && start[i] && #[trigger] in_sprite(x, y, len, i)
                        && sprite@[cell(x, y, i)] == 1 && cell(x, y, i) < k,
            decreases cells - k,
        {
            let row = k / 8;
            let col = k % 8;
            proof {
                lemma_cell_position(x, y, rows as int, k as int);
            }
            let index = (y as usize + row) * SCREEN_WIDTH + x as usize + col;
            let ghost before = self.screen@;
            let ghost flip_before = flip;
            let pixel = self.screen[index];
            let value = sprite[k];
            if pixel && value == 1 {
                flip = true;
            }
            self.screen[index] = if pixel {
                value != 1
            } else {
                value != 0
            };
            proof {
                assert(in_sprite(x, y, len, index as int) && cell(x, y, index as int) == k);
                assert forall|i: int|
                    #![trigger self.screen@[i]]
                    0 <= i < SCREEN_SIZE implies self.screen@[i] == (if in_sprite(x, y, len, i)
                        && cell(x, y, i) < k + 1 {
                        pixel_after(start[i], sprite@[cell(x, y, i)])
                    } else {
                        start[i]
                    }) by {
                    if i != index {
                        assert(self.screen@[i] == before[i]);
                        if in_sprite(x, y, len, i) && cell(x, y, i) == k {
                            lemma_fundamental_div_mod_converse(i, 64, i / 64, i % 64);
                            assert(false);
                        }
                    }
                }
                if flip {
                    if !flip_before {
                        assert(start[index as int] && in_sprite(x, y, len, index as int));
                    }
                } else {
                    assert forall|i: int|
                        0 <= i < SCREEN_SIZE && start[i] && #[trigger] in_sprite(x, y, len, i)
                            && sprite@[cell(x, y, i)] == 1 implies cell(x, y, i) >= k + 1 by {
                        if cell(x, y, i) == k && i != index {
                            lemma_fundamental_div_mod_converse(i, 64, i / 64, i % 64);
                        }
                    }
                }
            }
            k += 1;
        }
        proof {
            assert forall|i: int| 0 <= i < SCREEN_SIZE && #[trigger] in_sprite(x, y, len, i)
                implies cell(x, y, i) < cells by {
                lemma_cell_in_sprite(x, y, len, i);
            }
            assert(self.screen@ =~= drawn(start, x, y, sprite@));
        }
        flip
    }
}

} // verus!
