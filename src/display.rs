use vstd::prelude::*;

verus! {

/// Width of the framebuffer in pixels.
pub const SCREEN_WIDTH: usize = 64;

/// Height of the framebuffer in pixels.
pub const SCREEN_HEIGHT: usize = 32;

/// A framebuffer, indexed by column, then row.
pub type Screen = [[u8; 32]; 64];

/// The pixels of `s` as columns of rows.
pub open spec fn screen_view(s: Screen) -> Seq<Seq<u8>> {
    Seq::new(SCREEN_WIDTH as nat, |i: int| s@[i]@)
}

/// A framebuffer with every pixel off.
pub open spec fn blank() -> Seq<Seq<u8>> {
    Seq::new(SCREEN_WIDTH as nat, |i: int| Seq::new(SCREEN_HEIGHT as nat, |j: int| 0u8))
}

/// Bit `c` of a sprite row, counting from the most significant bit.
pub open spec fn sprite_bit(b: u8, c: int) -> u8 {
    (b >> ((7 - c) as u8)) & 1u8
}

/// How many columns to the right of `x` (wrapping) column `i` lies.
pub open spec fn col_offset(x: int, i: int) -> int {
    (i - x) % (SCREEN_WIDTH as int)
}

/// `g` with the first `k` bits of sprite row `b` XORed in at `(x, y)`, both wrapping.
pub open spec fn blit_row_upto(g: Seq<Seq<u8>>, x: int, y: int, b: u8, k: int) -> Seq<Seq<u8>> {
    Seq::new(
        SCREEN_WIDTH as nat,
        |i: int|
            Seq::new(
                SCREEN_HEIGHT as nat,
                |j: int|
                    if j == y % (SCREEN_HEIGHT as int) && col_offset(x, i) < k {
                        g[i][j] ^ sprite_bit(b, col_offset(x, i))
                    } else {
                        g[i][j]
                    },
            ),
    )
}

/// Whether one of the first `k` bits of row `b`, drawn at `(x, y)`, is set over a lit pixel.
pub open spec fn row_collides_upto(g: Seq<Seq<u8>>, x: int, y: int, b: u8, k: int) -> bool {
    exists|c: int|
        0 <= c < k && g[(x + c) % (SCREEN_WIDTH as int)][y % (SCREEN_HEIGHT as int)] == 1u8
            && sprite_bit(b, c) == 1u8
}

/// Drawing `rows` at `(x, y)`: each row `r` goes to line `y + r`, each bit `c`
/// to column `x + c`, both wrapping; the flag tells whether a set bit met a lit pixel.
pub open spec fn blit(g: Seq<Seq<u8>>, x: int, y: int, rows: Seq<u8>) -> (Seq<Seq<u8>>, bool)
    decreases rows.len(),
{
    if rows.len() == 0 {
        (g, false)
    } else {
        let prev = blit(g, x, y, rows.drop_last());
        let ry = y + rows.len() - 1;
        (
            blit_row_upto(prev.0, x, ry, rows.last(), 8),
            prev.1 || row_collides_upto(prev.0, x, ry, rows.last(), 8),
        )
    }
}

proof fn lemma_col_offset(x: int, i: int, c: int)
    requires
        x >= 0,
        0 <= i < 64,
        0 <= c < 64,
    ensures
        col_offset(x, i) == c <==> i == (x + c) % 64,
{
    let q = x / 64;
    let r = x % 64;
    assert(x == 64 * q + r && 0 <= r < 64) by (nonlinear_arith)
        requires
            q == x / 64,
            r == x % 64,
            x >= 0,
    ;
    assert((i - x) % 64 == (i - r) % 64) by (nonlinear_arith)
        requires
            x == 64 * q + r,
    ;
    assert((x + c) % 64 == (r + c) % 64) by (nonlinear_arith)
        requires
            x == 64 * q + r,
    ;
}

/// The monochrome framebuffer and its sprite blit.
pub struct Display {
    screen: Screen,
}

impl View for Display {
    type V = Seq<Seq<u8>>;

    closed spec fn view(&self) -> Seq<Seq<u8>> {
        screen_view(self.screen)
    }
}

impl Display {
    pub fn new() -> (r: Self)
        ensures
            r@ == blank(),
    {
        let r = Display { screen: [[0; 32]; 64] };
        assert(r@ =~~= blank());
        r
    }

    /// XORs `sprite` onto the framebuffer at `(x_coord, y_coord)`, both axes
    /// wrapping; returns whether a set sprite bit met a lit pixel.
    pub fn draw(&mut self, x_coord: u16, y_coord: u16, sprite: Vec<u8>) -> (r: bool)
        ensures
            (final(self)@, r) == blit(old(self)@, x_coord as int, y_coord as int, sprite@),
    {
        let ghost g0 = self@;
        let mut pixel_erased = false;
        let mut row: usize = 0;
        while row < sprite.len()
            invariant
                row <= sprite@.len(),
                (self@, pixel_erased) == blit(g0, x_coord as int, y_coord as int, sprite@.subrange(0, row as int)),
            decreases sprite@.len() - row,
        {
            let ghost gr = self@;
            let sprite_byte = sprite[row];
            let current_y = (y_coord as usize + row % SCREEN_HEIGHT) % SCREEN_HEIGHT;
            let ghost ry = y_coord as int + row as int;
            proof {
                vstd::arithmetic::div_mod::lemma_add_mod_noop_right(y_coord as int, row as int, 32);
            }
            let mut row_erased = false;
            let mut bit: usize = 0;
            assert(self@ =~~= blit_row_upto(gr, x_coord as int, ry, sprite_byte, 0));
            while bit < 8
                invariant
                    bit <= 8,
                    current_y == ry % 32,
                    row < sprite@.len(),
                    sprite_byte == sprite@[row as int],
                    (gr, pixel_erased) == blit(g0, x_coord as int, y_coord as int, sprite@.subrange(0, row as int)),
                    ry == y_coord as int + row as int,
                    self@ == blit_row_upto(gr, x_coord as int, ry, sprite_byte, bit as int),
                    row_erased == row_collides_upto(gr, x_coord as int, ry, sprite_byte, bit as int),
                decreases 8 - bit,
            {
                let current_x = (x_coord as usize + bit) % SCREEN_WIDTH;
                let sprite_pixel = (sprite_byte >> (7 - bit as u8)) & 0x01;
                let ghost before = self@;
                let mut column = self.screen[current_x];
                let screen_pixel = column[current_y];
                assert(screen_pixel == before[current_x as int][current_y as int]);
                assert(sprite_pixel == sprite_bit(sprite_byte, bit as int));
                column[current_y] = screen_pixel ^ sprite_pixel;
                self.screen[current_x] = column;
                proof {
                    lemma_col_offset(x_coord as int, current_x as int, bit as int);
                    assert(col_offset(x_coord as int, current_x as int) == bit);
                    assert forall|i: int| 0 <= i < 64 && i != current_x implies col_offset(x_coord as int, i) != bit by {
                        lemma_col_offset(x_coord as int, i, bit as int);
                    }
                    assert(screen_pixel == gr[current_x as int][current_y as int]);
                    assert forall|i: int, j: int| 0 <= i < 64 && 0 <= j < 32 implies self@[i][j]
                        == blit_row_upto(gr, x_coord as int, ry, sprite_byte, bit + 1)[i][j] by {
                        if i == current_x && j == current_y {
                        } else {
                            assert(self@[i][j] == before[i][j]);
                        }
                    }
                }
                if screen_pixel == 1 && sprite_pixel == 1 {
                    row_erased = true;
                }
                bit = bit + 1;
                assert(self@ =~~= blit_row_upto(gr, x_coord as int, ry, sprite_byte, bit as int));
                assert(row_erased == row_collides_upto(gr, x_coord as int, ry, sprite_byte, bit as int));
            }
            row = row + 1;
            pixel_erased = pixel_erased || row_erased;
            proof {
                let rows = sprite@.subrange(0, row as int);
                assert(rows.drop_last() =~= sprite@.subrange(0, row - 1));
                assert(rows.last() == sprite_byte);
                assert(blit(g0, x_coord as int, y_coord as int, rows) == (
                    blit_row_upto(gr, x_coord as int, ry, sprite_byte, 8),
                    blit(g0, x_coord as int, y_coord as int, rows.drop_last()).1 || row_collides_upto(gr, x_coord as int, ry, sprite_byte, 8),
                ));
            }
        }
        assert(sprite@.subrange(0, sprite@.len() as int) =~= sprite@);
        pixel_erased
    }

    /// Turns every pixel off.
    pub fn clear(&mut self)
        ensures
            final(self)@ == blank(),
    {
        let mut i: usize = 0;
        while i < SCREEN_WIDTH
            invariant
                i <= SCREEN_WIDTH,
                forall|a: int, b: int| 0 <= a < i && 0 <= b < 32 ==> self.screen@[a]@[b] == 0u8,
            decreases SCREEN_WIDTH - i,
        {
            self.screen[i] = [0; 32];
            i = i + 1;
        }
        assert(self@ =~~= blank());
    }

    /// A copy of the framebuffer.
    pub fn get_pixels(&self) -> (r: Screen)
        ensures
            screen_view(r) == self@,
    {
        self.screen
    }
}

} // verus!
