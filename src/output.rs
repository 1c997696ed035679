use vstd::prelude::*;
use vstd::string::StringExecFns;

verus! {

/// Width of the frame buffer in pixels.
pub const WIDTH: usize = 64;

/// Height of the frame buffer in pixels.
pub const HEIGHT: usize = 32;

/// How a frame buffer may be shown as text.
pub enum RenderMode {
    Hidden,
    Braille,
    Ascii,
    Block,
}

/// A grid of 64 columns by 32 rows with every pixel off.
pub open spec fn blank() -> Seq<Seq<bool>> {
    Seq::new(64, |_px: int| Seq::new(32, |_py: int| false))
}

/// Whether `g` has 64 columns of 32 pixels each.
pub open spec fn is_grid(g: Seq<Seq<bool>>) -> bool {
    &&& g.len() == 64
    &&& forall|px: int| 0 <= px < 64 ==> (#[trigger] g[px]).len() == 32
}

/// Bit `k` of a sprite, counting from the most significant bit of its
/// first byte.
pub open spec fn sprite_bit(sprite: Seq<u8>, k: int) -> bool {
    (sprite[k / 8] >> ((7 - k % 8) as u8)) & 1 == 1
}

/// The column that bit `k` of a sprite drawn at column `x` lands on.
pub open spec fn target_col(x: int, k: int) -> int {
    (x + k % 8) % 64
}

/// The row that bit `k` of a sprite drawn at row `y` lands on.
pub open spec fn target_row(y: int, k: int) -> int {
    (y + k / 8) % 32
}

/// How many of the first `k` sprite bits are set and land on pixel `(px, py)`.
pub open spec fn hits(sprite: Seq<u8>, x: int, y: int, px: int, py: int, k: nat) -> nat
    decreases k,
{
    if k == 0 {
        0
    } else {
        let j = k - 1;
        hits(sprite, x, y, px, py, j as nat) + if sprite_bit(sprite, j) && target_col(x, j) == px
            && target_row(y, j) == py {
            1nat
        } else {
            0nat
        }
    }
}

/// Pixel `(px, py)` of `g` once the first `k` bits of the sprite are XORed in.
pub open spec fn pixel_after(
    g: Seq<Seq<bool>>,
    sprite: Seq<u8>,
    x: int,
    y: int,
    px: int,
    py: int,
    k: nat,
) -> bool {
    g[px][py] != (hits(sprite, x, y, px, py, k) % 2 == 1)
}

/// Whether bit `k` of the sprite is set and lands on a pixel that is on at
/// the moment it is drawn.
pub open spec fn collides_at(g: Seq<Seq<bool>>, sprite: Seq<u8>, x: int, y: int, k: int) -> bool {
    &&& sprite_bit(sprite, k)
    &&& pixel_after(g, sprite, x, y, target_col(x, k), target_row(y, k), k as nat)
}

/// The grid after drawing the whole sprite at `(x, y)`.
pub open spec fn drawn(g: Seq<Seq<bool>>, sprite: Seq<u8>, x: int, y: int) -> Seq<Seq<bool>> {
    Seq::new(
        64,
        |px: int| Seq::new(32, |py: int| pixel_after(g, sprite, x, y, px, py, 8 * sprite.len())),
    )
}

/// Whether drawing the sprite at `(x, y)` turns off any pixel.
pub open spec fn collision(g: Seq<Seq<bool>>, sprite: Seq<u8>, x: int, y: int) -> bool {
    exists|k: int| 0 <= k < 8 * sprite.len() && #[trigger] collides_at(g, sprite, x, y, k)
}

/// Drawing the same sprite twice at the same coordinates gives back the
/// grid that was there before: XOR undoes itself.
pub proof fn lemma_draw_twice_restores(g: Seq<Seq<bool>>, sprite: Seq<u8>, x: int, y: int)
    requires
        is_grid(g),
    ensures
        drawn(drawn(g, sprite, x, y), sprite, x, y) == g,
{
    assert(drawn(drawn(g, sprite, x, y), sprite, x, y) =~~= g);
}

/// A sprite with no bit set reports no collision when drawn, neither the
/// first time nor the second.
pub proof fn lemma_draw_twice_no_collision(g: Seq<Seq<bool>>, sprite: Seq<u8>, x: int, y: int)
    requires
        forall|k: int| 0 <= k < 8 * sprite.len() ==> !#[trigger] sprite_bit(sprite, k),
    ensures
        !collision(g, sprite, x, y),
        !collision(drawn(g, sprite, x, y), sprite, x, y),
{
}

/// The character that shows a pixel above another as one text cell.
pub open spec fn glyph(upper: bool, lower: bool) -> char {
    if upper && lower {
        '\u{2588}'
    } else if upper {
        '\u{2580}'
    } else if lower {
        '\u{2584}'
    } else {
        ' '
    }
}

/// A border line: `edge` 64 times between two spaces.
pub open spec fn border(edge: char) -> Seq<char> {
    seq![' '] + Seq::new(64, |_i: int| edge) + seq![' ', '\n']
}

/// The text line that shows pixel rows `y` and `y + 1` of `g`.
pub open spec fn row_line(g: Seq<Seq<bool>>, y: int) -> Seq<char> {
    seq!['\u{2595}'] + Seq::new(64, |px: int| glyph(g[px][y], g[px][y + 1])) + seq![
        '\u{258F}',
        '\n',
    ]
}

/// The text lines for the first `n` pairs of pixel rows.
pub open spec fn row_lines(g: Seq<Seq<bool>>, n: nat) -> Seq<char>
    decreases n,
{
    if n == 0 {
        Seq::empty()
    } else {
        row_lines(g, (n - 1) as nat) + row_line(g, 2 * (n - 1))
    }
}

/// The grid drawn as text, two pixel rows per line, inside a frame.
pub open spec fn render_text(g: Seq<Seq<bool>>) -> Seq<char> {
    border('\u{2581}') + row_lines(g, 16) + border('\u{2594}')
}

/// Appends one border line made of `edge`, which holds one character.
fn push_border(out: &mut String, edge: &str)
    requires
        edge@.len() == 1,
    ensures
        final(out)@ == old(out)@ + border(edge@[0]),
{
    let ghost start = out@;
    proof {
        reveal_strlit(" ");
        reveal_strlit(" \n");
    }
    out.append(" ");
    let mut k: usize = 0;
    while k < WIDTH
        invariant
            k <= 64,
            edge@.len() == 1,
            out@ == start + seq![' '] + Seq::new(k as nat, |_i: int| edge@[0]),
        decreases 64 - k,
    {
        out.append(edge);
        assert(out@ =~= start + seq![' '] + Seq::new((k + 1) as nat, |_i: int| edge@[0]));
        k = k + 1;
    }
    out.append(" \n");
    assert(out@ =~= start + border(edge@[0]));
}

/// The 64x32 monochrome frame buffer, indexed by column then row.
#[derive(Debug)]
pub struct Screen {
    pixels: [[bool; 32]; 64],
}

impl View for Screen {
    type V = Seq<Seq<bool>>;

    closed spec fn view(&self) -> Seq<Seq<bool>> {
        self.pixels@.map_values(|c: [bool; 32]| c@)
    }
}

impl Screen {
    pub broadcast proof fn lemma_is_grid(s: &Screen)
        ensures
            #[trigger] is_grid(s@),
    {
    }

    /// A screen with every pixel off.
    pub fn new() -> (r: Self)
        ensures
            r@ == blank(),
    {
        let r = Screen { pixels: [[false; 32]; 64] };
        assert(r@ =~~= blank());
        r
    }

    /// XORs `sprite` onto the screen with its top-left corner at `(x, y)`,
    /// wrapping at the edges, and reports whether any pixel was turned off.
    pub fn draw(&mut self, x: u8, y: u8, sprite: &[u8]) -> (collided: bool)
        ensures
            final(self)@ == drawn(old(self)@, sprite@, x as int, y as int),
            collided == collision(old(self)@, sprite@, x as int, y as int),
    {
        let ghost g = old(self)@;
        let ghost s = sprite@;
        let mut collided = false;
        let mut i: usize = 0;
        while i < sprite.len()
            invariant
                i <= s.len(),
                s == sprite@,
                is_grid(self@),
                forall|px: int, py: int|
                    0 <= px < 64 && 0 <= py < 32 ==> #[trigger] self@[px][py] == pixel_after(
                        g,
                        s,
                        x as int,
                        y as int,
                        px,
                        py,
                        (8 * i) as nat,
                    ),
                collided == exists|k: int|
                    0 <= k < 8 * i && #[trigger] collides_at(g, s, x as int, y as int, k),
            decreases s.len() - i,
        {
            let byte = sprite[i];
            let mut j: usize = 0;
            while j < 8
                invariant
                    i < s.len(),
                    j <= 8,
                    s == sprite@,
                    byte == s[i as int],
                    is_grid(self@),
                    forall|px: int, py: int|
                        0 <= px < 64 && 0 <= py < 32 ==> #[trigger] self@[px][py] == pixel_after(
                            g,
                            s,
                            x as int,
                            y as int,
                            px,
                            py,
                            (8 * i + j) as nat,
                        ),
                    collided == exists|k: int|
                        0 <= k < 8 * i + j && #[trigger] collides_at(g, s, x as int, y as int, k),
                decreases 8 - j,
            {
                let ghost k: int = 8 * i + j;
                let bit = (byte >> (7 - j as u8)) & 1;
                let tx = (x as usize + j) % WIDTH;
                let ty = (y as usize + i % HEIGHT) % HEIGHT;
                proof {
                    vstd::arithmetic::div_mod::lemma_add_mod_noop_right(y as int, i as int, 32);
                }
                assert(k / 8 == i && k % 8 == j) by (nonlinear_arith)
                    requires
                        k == 8 * i + j,
                        0 <= j < 8,
                ;
                assert(sprite_bit(s, k) == (bit == 1));
                assert(tx == target_col(x as int, k) && ty == target_row(y as int, k));
                let ghost before = self@;
                let mut column = self.pixels[tx];
                let cur = column[ty];
                assert(cur == before[tx as int][ty as int]);
                if bit == 1 && cur {
                    collided = true;
                }
                column[ty] = cur != (bit == 1);
                self.pixels[tx] = column;
                proof {
                    assert forall|px: int, py: int|
                        0 <= px < 64 && 0 <= py < 32 implies #[trigger] self@[px][py]
                        == pixel_after(g, s, x as int, y as int, px, py, (k + 1) as nat) by {
                        assert(hits(s, x as int, y as int, px, py, (k + 1) as nat) == hits(
                            s,
                            x as int,
                            y as int,
                            px,
                            py,
                            k as nat,
                        ) + if sprite_bit(s, k) && tx == px && ty == py {
                            1nat
                        } else {
                            0nat
                        });
                        assert(before[px][py] == pixel_after(
                            g,
                            s,
                            x as int,
                            y as int,
                            px,
                            py,
                            k as nat,
                        ));
                    }
                    assert(cur == pixel_after(g, s, x as int, y as int, tx as int, ty as int, k as nat));
                    if bit == 1 && cur {
                        assert(collides_at(g, s, x as int, y as int, k));
                    }
                    assert(collides_at(g, s, x as int, y as int, k) == (bit == 1 && cur));
                }
                j = j + 1;
            }
            i = i + 1;
        }
        assert(self@ =~~= drawn(g, s, x as int, y as int));
        collided
    }

    /// Turns every pixel off.
    pub fn clear(&mut self)
        ensures
            final(self)@ == blank(),
    {
        self.pixels = [[false; 32]; 64];
        assert(self@ =~~= blank());
    }

    /// The screen as text: a frame around sixteen lines of 64 cells, each
    /// cell showing two vertically adjacent pixels.
    pub fn render(&self) -> (r: String)
        ensures
            r@ == render_text(self@),
    {
        let ghost g = self@;
        let mut output = String::new();
        proof {
            reveal_strlit("\u{2581}");
        }
        push_border(&mut output, "\u{2581}");
        let mut n: usize = 0;
        while n < HEIGHT / 2
            invariant
                n <= 16,
                g == self@,
                is_grid(g),
                output@ == border('\u{2581}') + row_lines(g, n as nat),
            decreases 16 - n,
        {
            let y = 2 * n;
            let ghost line_start = output@;
            proof {
                reveal_strlit("\u{2595}");
                reveal_strlit("\u{258F}\n");
            }
            output.append("\u{2595}");
            let mut x: usize = 0;
            while x < WIDTH
                invariant
                    x <= 64,
                    y == 2 * n,
                    n < 16,
                    g == self@,
                    is_grid(g),
                    output@ == line_start + seq!['\u{2595}'] + Seq::new(
                        x as nat,
                        |px: int| glyph(g[px][y as int], g[px][y + 1]),
                    ),
                decreases 64 - x,
            {
                proof {
                    reveal_strlit(" ");
                    reveal_strlit("\u{2580}");
                    reveal_strlit("\u{2584}");
                    reveal_strlit("\u{2588}");
                }
                let upper = self.pixels[x][y];
                let lower = self.pixels[x][y + 1];
                assert(upper == g[x as int][y as int] && lower == g[x as int][y + 1]);
                let cell = if upper && lower {
                    "\u{2588}"
                } else if upper {
                    "\u{2580}"
                } else if lower {
                    "\u{2584}"
                } else {
                    " "
                };
                assert(cell@ =~= seq![glyph(g[x as int][y as int], g[x as int][y + 1])]);
                output.append(cell);
                assert(output@ =~= line_start + seq!['\u{2595}'] + Seq::new(
                    (x + 1) as nat,
                    |px: int| glyph(g[px][y as int], g[px][y + 1]),
                ));
                x = x + 1;
            }
            output.append("\u{258F}\n");
            assert(output@ =~= border('\u{2581}') + row_lines(g, (n + 1) as nat));
            n = n + 1;
        }
        proof {
            reveal_strlit("\u{2594}");
        }
        push_border(&mut output, "\u{2594}");
        output
    }

    /// The pixels, indexed by column then row.
    pub fn get_pixels(&self) -> (r: &[[bool; 32]; 64])
        ensures
            r@.map_values(|c: [bool; 32]| c@) == self@,
    {
        &self.pixels
    }
}

impl Default for Screen {
    fn default() -> (r: Self)
        ensures
            r@ == blank(),
    {
        Self::new()
    }
}

} // verus!
