use vstd::prelude::*;

verus! {

/// A rasterized glyph as the text compositor needs it: where its coverage
/// bitmap sits relative to the pen and the baseline, its size, how far it
/// moves the pen, and its row-major coverage values (0 is transparent).
pub struct GlyphBitmap {
    pub xmin: i32,
    pub ymin: i32,
    pub width: usize,
    pub height: usize,
    pub advance: i32,
    pub coverage: Vec<u8>,
}

/// The pen position before glyph `k`: the sum of the advances of the glyphs before it.
pub open spec fn pen(glyphs: Seq<GlyphBitmap>, k: int) -> int
    decreases k,
{
    if k <= 0 {
        0
    } else {
        pen(glyphs, k - 1) + glyphs[k - 1].advance
    }
}

/// Left edge of glyph `k` in the image.
pub open spec fn glyph_left(glyphs: Seq<GlyphBitmap>, k: int) -> int {
    pen(glyphs, k) + glyphs[k].xmin
}

/// Top edge of glyph `k` in the image (rows grow downwards from the top).
pub open spec fn glyph_top(glyphs: Seq<GlyphBitmap>, k: int, baseline: i32) -> int {
    baseline - glyphs[k].ymin - glyphs[k].height
}

/// The coverage that glyph `k` puts on image pixel (`px`, `py`): its bitmap
/// value there, or 0 outside its box.
pub open spec fn coverage_at(glyphs: Seq<GlyphBitmap>, k: int, baseline: i32, px: int, py: int) -> int {
    let g = glyphs[k];
    let col = px - glyph_left(glyphs, k);
    let row = py - glyph_top(glyphs, k, baseline);
    if 0 <= col < g.width && 0 <= row < g.height {
        g.coverage@[row * g.width + col] as int
    } else {
        0
    }
}

/// Channel `c` of a pixel painted in `color` at coverage `alpha`: the color's
/// red, green and blue, and its alpha scaled by the coverage.
pub open spec fn painted(color: [u8; 4], alpha: int, c: int) -> int {
    if c < 3 {
        color@[c] as int
    } else {
        (alpha * color@[3]) / 255
    }
}

/// Channel `c` of pixel (`px`, `py`) after the first `k` glyphs are drawn:
/// each glyph paints where its coverage is not zero, over what lies below,
/// and the image starts transparent black.
pub open spec fn composed(glyphs: Seq<GlyphBitmap>, k: int, baseline: i32, color: [u8; 4], px: int, py: int, c: int) -> int
    decreases k,
{
    if k <= 0 {
        0
    } else if coverage_at(glyphs, k - 1, baseline, px, py) != 0 {
        painted(color, coverage_at(glyphs, k - 1, baseline, px, py), c)
    } else {
        composed(glyphs, k - 1, baseline, color, px, py, c)
    }
}

/// Byte index of channel `c` of pixel (`px`, `py`) in an RGBA image `width` pixels wide.
pub open spec fn pixel_index(width: int, px: int, py: int, c: int) -> int {
    (py * width + px) * 4 + c
}

/// The glyph's bitmap holds at least `width * height` coverage values.
pub open spec fn glyph_well_formed(g: GlyphBitmap) -> bool {
    g.width * g.height <= g.coverage@.len()
}

/// The 32-bit pen and pixel positions of glyph `k` do not overflow.
pub open spec fn glyph_positions_fit(glyphs: Seq<GlyphBitmap>, k: int, baseline: i32) -> bool {
    let g = glyphs[k];
    &&& g.width <= i32::MAX
    &&& g.height <= i32::MAX
    &&& i32::MIN <= glyph_left(glyphs, k)
    &&& glyph_left(glyphs, k) + g.width <= i32::MAX
    &&& i32::MIN <= baseline - g.ymin <= i32::MAX
    &&& i32::MIN <= glyph_top(glyphs, k, baseline)
    &&& i32::MIN <= pen(glyphs, k + 1) <= i32::MAX
}

proof fn lemma_index_bounds(width: int, height: int, px: int, py: int, c: int)
    requires
        0 <= px < width,
        0 <= py < height,
        0 <= c < 4,
    ensures
        0 <= py * width + px < width * height,
        0 <= pixel_index(width, px, py, c) < width * height * 4,
{
    assert(py * width + px < width * height) by (nonlinear_arith)
        requires 0 <= px < width, 0 <= py < height;
    assert(0 <= py * width) by (nonlinear_arith)
        requires 0 <= px < width, 0 <= py < height;
}

proof fn lemma_index_injective(width: int, px: int, py: int, c: int, qx: int, qy: int, d: int)
    requires
        0 <= px < width,
        0 <= qx < width,
        0 <= py,
        0 <= qy,
        0 <= c < 4,
        0 <= d < 4,
        pixel_index(width, px, py, c) == pixel_index(width, qx, qy, d),
    ensures
        px == qx,
        py == qy,
        c == d,
{
    let a = py * width + px;
    let b = qy * width + qx;
    assert(a == b && c == d);
    assert(py == qy) by (nonlinear_arith)
        requires py * width + px == qy * width + qx, 0 <= px < width, 0 <= qx < width, 0 <= py, 0 <= qy;
}

/// Writes the four channels of pixel (`px`, `py`) and no other byte.
fn put_pixel(pixels: &mut Vec<u8>, width: usize, height: usize, px: usize, py: usize, rgba: [u8; 4])
    requires
        old(pixels)@.len() == width * height * 4,
        width * height * 4 <= usize::MAX,
        px < width,
        py < height,
    ensures
        final(pixels)@.len() == old(pixels)@.len(),
        forall|qx: int, qy: int, c: int| 0 <= qx < width && 0 <= qy < height && 0 <= c < 4 ==>
            #[trigger] final(pixels)@[pixel_index(width as int, qx, qy, c)] ==
            if qx == px && qy == py { rgba@[c] } else { old(pixels)@[pixel_index(width as int, qx, qy, c)] },
{
    proof {
        lemma_index_bounds(width as int, height as int, px as int, py as int, 3);
        assert(py * width <= py * width + px);
    }
    let dst = (py * width + px) * 4;
    pixels.set(dst, rgba[0]);
    pixels.set(dst + 1, rgba[1]);
    pixels.set(dst + 2, rgba[2]);
    pixels.set(dst + 3, rgba[3]);
    proof {
        assert forall|qx: int, qy: int, c: int| 0 <= qx < width && 0 <= qy < height && 0 <= c < 4 implies
            #[trigger] pixels@[pixel_index(width as int, qx, qy, c)] ==
            if qx == px && qy == py { rgba@[c] } else { old(pixels)@[pixel_index(width as int, qx, qy, c)] } by {
            lemma_index_bounds(width as int, height as int, qx, qy, c);
            if !(qx == px && qy == py) {
                let i = pixel_index(width as int, qx, qy, c);
                if i == dst || i == dst + 1 || i == dst + 2 || i == dst + 3 {
                    let d = i - dst;
                    lemma_index_injective(width as int, qx, qy, c, px as int, py as int, d);
                }
            }
        }
    }
}

/// The pixels of channel-by-channel state `pixels` agree with `composed` after
/// `k` glyphs, except those glyph `k` has already painted, which hold its paint.
spec fn partly_composed(
    pixels: Seq<u8>,
    glyphs: Seq<GlyphBitmap>,
    k: int,
    baseline: i32,
    color: [u8; 4],
    width: int,
    height: int,
    row: int,
    col: int,
) -> bool {
    forall|px: int, py: int, c: int| 0 <= px < width && 0 <= py < height && 0 <= c < 4 ==>
        #[trigger] pixels[pixel_index(width, px, py, c)] == ({
            let r = py - glyph_top(glyphs, k, baseline);
            let cc = px - glyph_left(glyphs, k);
            if (r < row || (r == row && cc < col)) && coverage_at(glyphs, k, baseline, px, py) != 0 {
                painted(color, coverage_at(glyphs, k, baseline, px, py), c)
            } else {
                composed(glyphs, k, baseline, color, px, py, c)
            }
        })
}

/// Composes `text`'s glyphs into a `width` by `height` RGBA image, left to
/// right from pen position 0, with the glyphs' bottoms placed relative to
/// `baseline`. Every pixel a glyph covers takes the color's red, green and
/// blue and its alpha scaled by the coverage; later glyphs paint over earlier
/// ones, pixels outside the image are dropped, and the rest stay transparent
/// black.
pub fn compose_text_pixels(glyphs: &Vec<GlyphBitmap>, width: usize, height: usize, baseline: i32, color: [u8; 4]) -> (pixels: Vec<u8>)
    requires
        width <= i32::MAX,
        height <= i32::MAX,
        width * height * 4 <= usize::MAX,
        forall|k: int| 0 <= k < glyphs@.len() ==> glyph_well_formed(#[trigger] glyphs@[k]),
        forall|k: int| 0 <= k < glyphs@.len() ==> #[trigger] glyph_positions_fit(glyphs@, k, baseline),
    ensures
        pixels@.len() == width * height * 4,
        forall|px: int, py: int, c: int| 0 <= px < width && 0 <= py < height && 0 <= c < 4 ==>
            #[trigger] pixels@[pixel_index(width as int, px, py, c)] == composed(glyphs@, glyphs@.len() as int, baseline, color, px, py, c),
{
    let total = width * height * 4;
    let mut pixels: Vec<u8> = Vec::new();
    let mut i: usize = 0;
    while i < total
        invariant
            i <= total,
            total == width * height * 4,
            pixels@.len() == i,
            forall|j: int| 0 <= j < i ==> pixels@[j] == 0,
        decreases total - i,
    {
        pixels.push(0);
        i = i + 1;
    }
    proof {
        assert forall|px: int, py: int, c: int| 0 <= px < width && 0 <= py < height && 0 <= c < 4 implies
            #[trigger] pixels@[pixel_index(width as int, px, py, c)] == composed(glyphs@, 0, baseline, color, px, py, c) by {
            lemma_index_bounds(width as int, height as int, px, py, c);
        }
    }
    let mut pen_x: i32 = 0;
    let mut k: usize = 0;
    while k < glyphs.len()
        invariant
            k <= glyphs@.len(),
            width <= i32::MAX,
            height <= i32::MAX,
            width * height * 4 <= usize::MAX,
            pixels@.len() == width * height * 4,
            pen_x == pen(glyphs@, k as int),
            forall|k2: int| 0 <= k2 < glyphs@.len() ==> glyph_well_formed(#[trigger] glyphs@[k2]),
            forall|k2: int| 0 <= k2 < glyphs@.len() ==> #[trigger] glyph_positions_fit(glyphs@, k2, baseline),
            forall|px: int, py: int, c: int| 0 <= px < width && 0 <= py < height && 0 <= c < 4 ==>
                #[trigger] pixels@[pixel_index(width as int, px, py, c)] == composed(glyphs@, k as int, baseline, color, px, py, c),
        decreases glyphs@.len() - k,
    {
        let g = &glyphs[k];
        proof {
            assert(glyph_well_formed(glyphs@[k as int]));
            assert(glyph_positions_fit(glyphs@, k as int, baseline));
        }
        let gx: i32 = pen_x + g.xmin;
        let gy: i32 = baseline - g.ymin - g.height as i32;
        let gw = g.width;
        let gh = g.height;
        let mut row: usize = 0;
        while row < gh
            invariant
                row <= gh,
                gw == glyphs@[k as int].width,
                gh == glyphs@[k as int].height,
                gx == glyph_left(glyphs@, k as int),
                gy == glyph_top(glyphs@, k as int, baseline),
                k < glyphs@.len(),
                *g == glyphs@[k as int],
                glyph_well_formed(*g),
                glyph_positions_fit(glyphs@, k as int, baseline),
                width <= i32::MAX,
                height <= i32::MAX,
                width * height * 4 <= usize::MAX,
                pixels@.len() == width * height * 4,
                partly_composed(pixels@, glyphs@, k as int, baseline, color, width as int, height as int, row as int, 0),
            decreases gh - row,
        {
            let mut col: usize = 0;
            while col < gw
                invariant
                    row < gh,
                    col <= gw,
                    gw == glyphs@[k as int].width,
                    gh == glyphs@[k as int].height,
                    gx == glyph_left(glyphs@, k as int),
                    gy == glyph_top(glyphs@, k as int, baseline),
                    k < glyphs@.len(),
                    *g == glyphs@[k as int],
                    glyph_well_formed(*g),
                    glyph_positions_fit(glyphs@, k as int, baseline),
                    width <= i32::MAX,
                    height <= i32::MAX,
                    width * height * 4 <= usize::MAX,
                    pixels@.len() == width * height * 4,
                    partly_composed(pixels@, glyphs@, k as int, baseline, color, width as int, height as int, row as int, col as int),
                decreases gw - col,
            {
                proof {
                    assert(row * gw + col < gw * gh) by (nonlinear_arith)
                        requires row < gh, col < gw;
                    assert(0 <= row * gw) by (nonlinear_arith)
                        requires row < gh, col < gw;
                    assert(g.coverage@.len() == g.coverage.len());
                }
                let alpha = g.coverage[row * gw + col];
                if alpha != 0 {
                    let px: i32 = gx + col as i32;
                    let py: i32 = gy + row as i32;
                    if !(px < 0 || py < 0 || px >= width as i32 || py >= height as i32) {
                        proof {
                            assert(alpha as u16 * color[3] as u16 <= 255 * 255) by (nonlinear_arith)
                                requires alpha <= 255, color[3] <= 255;
                        }
                        let a: u8 = ((alpha as u16 * color[3] as u16) / 255) as u8;
                        let rgba: [u8; 4] = [color[0], color[1], color[2], a];
                        let ghost before = pixels@;
                        put_pixel(&mut pixels, width, height, px as usize, py as usize, rgba);
                        proof {
                            assert forall|qx: int, qy: int, c: int| 0 <= qx < width && 0 <= qy < height && 0 <= c < 4 implies
                                #[trigger] pixels@[pixel_index(width as int, qx, qy, c)] == ({
                                    let r = qy - glyph_top(glyphs@, k as int, baseline);
                                    let cc = qx - glyph_left(glyphs@, k as int);
                                    if (r < row || (r == row && cc < col + 1)) && coverage_at(glyphs@, k as int, baseline, qx, qy) != 0 {
                                        painted(color, coverage_at(glyphs@, k as int, baseline, qx, qy), c)
                                    } else {
                                        composed(glyphs@, k as int, baseline, color, qx, qy, c)
                                    }
                                }) by {
                                assert(before[pixel_index(width as int, qx, qy, c)] == pixels@[pixel_index(width as int, qx, qy, c)]
                                    || (qx == px && qy == py));
                                if qx == px && qy == py {
                                    assert(coverage_at(glyphs@, k as int, baseline, qx, qy) == alpha);
                                    assert(rgba@[c] == painted(color, alpha as int, c));
                                }
                            }
                        }
                    } else {
                        proof {
                            assert forall|qx: int, qy: int, c: int| 0 <= qx < width && 0 <= qy < height && 0 <= c < 4 implies
                                #[trigger] pixels@[pixel_index(width as int, qx, qy, c)] == ({
                                    let r = qy - glyph_top(glyphs@, k as int, baseline);
                                    let cc = qx - glyph_left(glyphs@, k as int);
                                    if (r < row || (r == row && cc < col + 1)) && coverage_at(glyphs@, k as int, baseline, qx, qy) != 0 {
                                        painted(color, coverage_at(glyphs@, k as int, baseline, qx, qy), c)
                                    } else {
                                        composed(glyphs@, k as int, baseline, color, qx, qy, c)
                                    }
                                }) by {
                                assert(!(qx == px && qy == py));
                            }
                        }
                    }
                } else {
                    proof {
                        assert forall|qx: int, qy: int, c: int| 0 <= qx < width && 0 <= qy < height && 0 <= c < 4 implies
                            #[trigger] pixels@[pixel_index(width as int, qx, qy, c)] == ({
                                let r = qy - glyph_top(glyphs@, k as int, baseline);
                                let cc = qx - glyph_left(glyphs@, k as int);
                                if (r < row || (r == row && cc < col + 1)) && coverage_at(glyphs@, k as int, baseline, qx, qy) != 0 {
                                    painted(color, coverage_at(glyphs@, k as int, baseline, qx, qy), c)
                                } else {
                                    composed(glyphs@, k as int, baseline, color, qx, qy, c)
                                }
                            }) by {
                            let r = qy - glyph_top(glyphs@, k as int, baseline);
                            let cc = qx - glyph_left(glyphs@, k as int);
                            if r == row && cc == col {
                                assert(coverage_at(glyphs@, k as int, baseline, qx, qy) == 0);
                            }
                        }
                    }
                }
                col = col + 1;
            }
            proof {
                assert forall|qx: int, qy: int, c: int| 0 <= qx < width && 0 <= qy < height && 0 <= c < 4 implies
                    #[trigger] pixels@[pixel_index(width as int, qx, qy, c)] == ({
                        let r = qy - glyph_top(glyphs@, k as int, baseline);
                        let cc = qx - glyph_left(glyphs@, k as int);
                        if (r < row + 1 || (r == row + 1 && cc < 0)) && coverage_at(glyphs@, k as int, baseline, qx, qy) != 0 {
                            painted(color, coverage_at(glyphs@, k as int, baseline, qx, qy), c)
                        } else {
                            composed(glyphs@, k as int, baseline, color, qx, qy, c)
                        }
                    }) by {
                    let cc = qx - glyph_left(glyphs@, k as int);
                    if cc >= gw {
                        assert(coverage_at(glyphs@, k as int, baseline, qx, qy) == 0);
                    }
                }
            }
            row = row + 1;
        }
        proof {
            assert forall|qx: int, qy: int, c: int| 0 <= qx < width && 0 <= qy < height && 0 <= c < 4 implies
                #[trigger] pixels@[pixel_index(width as int, qx, qy, c)] == composed(glyphs@, k + 1, baseline, color, qx, qy, c) by {
                let r = qy - glyph_top(glyphs@, k as int, baseline);
                if r >= gh {
                    assert(coverage_at(glyphs@, k as int, baseline, qx, qy) == 0);
                }
            }
        }
        pen_x = pen_x + g.advance;
        k = k + 1;
    }
    pixels
}

/// A pixel that no glyph covers stays transparent black, and a pixel that the
/// last glyph covers shows that glyph's paint whatever lay below.
pub proof fn lemma_composition_layers(glyphs: Seq<GlyphBitmap>, baseline: i32, color: [u8; 4], px: int, py: int, c: int)
    ensures
        (forall|k: int| 0 <= k < glyphs.len() ==> #[trigger] coverage_at(glyphs, k, baseline, px, py) == 0)
            ==> composed(glyphs, glyphs.len() as int, baseline, color, px, py, c) == 0,
        glyphs.len() > 0 && coverage_at(glyphs, glyphs.len() - 1, baseline, px, py) != 0
            ==> composed(glyphs, glyphs.len() as int, baseline, color, px, py, c)
                == painted(color, coverage_at(glyphs, glyphs.len() - 1, baseline, px, py), c),
    decreases glyphs.len(),
{
    if glyphs.len() > 0 {
        let init = glyphs.drop_last();
        lemma_composition_layers(init, baseline, color, px, py, c);
        lemma_composed_prefix(glyphs, glyphs.len() - 1, baseline, color, px, py, c);
        if forall|k: int| 0 <= k < glyphs.len() ==> #[trigger] coverage_at(glyphs, k, baseline, px, py) == 0 {
            assert forall|k: int| 0 <= k < init.len() implies #[trigger] coverage_at(init, k, baseline, px, py) == 0 by {
                lemma_prefix_coverage(glyphs, k, baseline, px, py);
                assert(coverage_at(glyphs, k, baseline, px, py) == 0);
            }
            assert(coverage_at(glyphs, glyphs.len() - 1, baseline, px, py) == 0);
        }
    }
}

proof fn lemma_prefix_pen(glyphs: Seq<GlyphBitmap>, k: int)
    requires
        0 <= k < glyphs.len(),
    ensures
        pen(glyphs.drop_last(), k) == pen(glyphs, k),
    decreases k,
{
    if k > 0 {
        lemma_prefix_pen(glyphs, k - 1);
    }
}

proof fn lemma_prefix_coverage(glyphs: Seq<GlyphBitmap>, k: int, baseline: i32, px: int, py: int)
    requires
        0 <= k < glyphs.len() - 1,
    ensures
        coverage_at(glyphs.drop_last(), k, baseline, px, py) == coverage_at(glyphs, k, baseline, px, py),
{
    lemma_prefix_pen(glyphs, k);
}

proof fn lemma_composed_prefix(glyphs: Seq<GlyphBitmap>, k: int, baseline: i32, color: [u8; 4], px: int, py: int, c: int)
    requires
        0 <= k <= glyphs.len() - 1,
    ensures
        composed(glyphs.drop_last(), k, baseline, color, px, py, c) == composed(glyphs, k, baseline, color, px, py, c),
    decreases k,
{
    if k > 0 {
        lemma_composed_prefix(glyphs, k - 1, baseline, color, px, py, c);
        lemma_prefix_coverage(glyphs, k - 1, baseline, px, py);
    }
}

/// Where a glyph lands and what it paints, in terms of the glyph's own
/// fields: its bitmap's top-left corner sits at pen + xmin across and at
/// baseline - ymin - height down, so its bottom row ends ymin pixels above the
/// baseline (a negative ymin hangs below it); the pen starts at 0 and moves by
/// each glyph's advance; and a pixel that the last glyph covers shows the
/// color's red, green and blue with alpha = coverage * color alpha / 255.
pub proof fn lemma_glyph_placement(glyphs: Seq<GlyphBitmap>, baseline: i32, color: [u8; 4], k: int, row: int, col: int, c: int)
    requires
        0 <= k < glyphs.len(),
        0 <= row < glyphs[k].height,
        0 <= col < glyphs[k].width,
        glyph_well_formed(glyphs[k]),
        0 <= c < 4,
    ensures
        pen(glyphs, 0) == 0,
        pen(glyphs, k + 1) == pen(glyphs, k) + glyphs[k].advance,
        coverage_at(glyphs, k, baseline, pen(glyphs, k) + glyphs[k].xmin + col, baseline - glyphs[k].ymin - glyphs[k].height + row)
            == glyphs[k].coverage@[row * glyphs[k].width + col],
        k == glyphs.len() - 1 && glyphs[k].coverage@[row * glyphs[k].width + col] != 0 ==>
            composed(glyphs, glyphs.len() as int, baseline, color,
                pen(glyphs, k) + glyphs[k].xmin + col, baseline - glyphs[k].ymin - glyphs[k].height + row, c)
            == (if c < 3 { color@[c] as int } else { (glyphs[k].coverage@[row * glyphs[k].width + col] * color@[3]) / 255 }),
{
    let px = pen(glyphs, k) + glyphs[k].xmin + col;
    let py = baseline - glyphs[k].ymin - glyphs[k].height + row;
    assert(px - glyph_left(glyphs, k) == col);
    assert(py - glyph_top(glyphs, k, baseline) == row);
}

} // verus!
