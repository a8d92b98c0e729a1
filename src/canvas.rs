use vstd::prelude::*;
use crate::shape::{inside_rounded_rect, is_inside_rounded_rect};

verus! {

/// An RGBA image with eight bits per channel, rows top to bottom, four bytes
/// per pixel.
pub struct RgbaPixels {
    pub width: u32,
    pub height: u32,
    pub data: Vec<u8>,
}

impl RgbaPixels {
    /// The buffer holds exactly four bytes for each pixel.
    pub open spec fn wf(&self) -> bool {
        self.data@.len() == 4 * (self.width as int) * (self.height as int)
    }
}

/// A source pixel of coverage `alpha` at `(x, y)`, as a glyph rasterizer
/// hands it out.
#[derive(Clone, Copy, Debug, PartialEq, Eq)]
pub struct Coverage {
    pub x: u32,
    pub y: u32,
    pub alpha: u8,
}

/// Alpha of `sa` composited over `da`, both on the 0..=255 scale:
/// `sa + da * (1 - sa)`, truncated.
pub open spec fn over_alpha(sa: int, da: int) -> int {
    (sa * 255 + da * (255 - sa)) / 255
}

/// A colour channel of `sc` (alpha `sa`) composited over `dc` (alpha `da`):
/// the alpha-weighted blend divided by the combined alpha, truncated; zero
/// where the combined alpha is zero.
pub open spec fn over_channel(sc: int, dc: int, sa: int, da: int) -> int {
    let combined = sa * 255 + da * (255 - sa);
    if combined == 0 {
        dc
    } else {
        (sc * sa * 255 + dc * da * (255 - sa)) / combined
    }
}

/// A canvas of `width` by `height` pixels, all fully transparent.
pub fn transparent_canvas(width: u32, height: u32) -> (r: RgbaPixels)
    requires
        4 * (width as int) * (height as int) <= usize::MAX,
    ensures
        r.wf(),
        r.width == width,
        r.height == height,
        forall|j: int| 0 <= j < r.data@.len() ==> r.data@[j] == 0,
        r.data@ == transparent_bytes(width as int, height as int),
{
    proof {
        assert(4 * (width as int) <= 4 * (width as int) * (height as int) || height == 0) by (nonlinear_arith)
            requires height >= 0, width >= 0;
    }
    let n: usize = if height == 0 { 0 } else { 4 * (width as usize) * (height as usize) };
    let mut data: Vec<u8> = Vec::new();
    while data.len() < n
        invariant
            data@.len() <= n,
            forall|j: int| 0 <= j < data@.len() ==> data@[j] == 0,
        decreases n - data@.len(),
    {
        data.push(0);
    }
    proof {
        if height == 0 {
            assert(4 * (width as int) * (height as int) == 0);
        }
    }
    assert(data@ =~= transparent_bytes(width as int, height as int));
    RgbaPixels { width, height, data }
}

/// The bytes of a fully transparent `w` by `h` image.
pub open spec fn transparent_bytes(w: int, h: int) -> Seq<u8> {
    Seq::new((4 * w * h) as nat, |j: int| 0u8)
}

/// `before` with the rounded background drawn over it.
pub open spec fn painted(before: Seq<u8>, w: int, h: int, r: int, color: Seq<u8>) -> Seq<u8> {
    Seq::new(before.len(), |j: int| background_byte(before, j, w, h, r, color))
}

/// `d` with every colour channel set to zero and every alpha kept.
pub open spec fn recolored(d: Seq<u8>) -> Seq<u8> {
    Seq::new(d.len(), |j: int| if j % 4 == 3 { d[j] } else { 0u8 })
}

/// `before` with coverage `c` of `color` composited over it.
pub open spec fn blended(before: Seq<u8>, w: int, h: int, c: Coverage, color: Seq<u8>) -> Seq<u8> {
    Seq::new(before.len(), |j: int| blended_byte(before, j, w, h, c, color) as u8)
}

/// `before` with the first `n` coverage pixels of `cov` composited in turn.
pub open spec fn blended_prefix(before: Seq<u8>, w: int, h: int, cov: Seq<Coverage>, n: nat, color: Seq<u8>) -> Seq<u8>
    decreases n,
{
    if n == 0 {
        before
    } else {
        blended(blended_prefix(before, w, h, cov, (n - 1) as nat, color), w, h, cov[n - 1], color)
    }
}

/// The byte at `j` once the rounded background of radius `r` and colour
/// `color` is drawn over `before`, an image `w` pixels wide and `h` high.
pub open spec fn background_byte(before: Seq<u8>, j: int, w: int, h: int, r: int, color: Seq<u8>) -> u8 {
    let p = j / 4;
    if inside_rounded_rect(p % w, p / w, w, h, r) {
        color[j % 4]
    } else {
        before[j]
    }
}

/// Paints every pixel inside the rounded rectangle spanning the canvas with
/// `color`; pixels outside keep their value. A canvas without pixels stays
/// as it is.
pub fn fill_rounded_background(canvas: &mut RgbaPixels, radius: u32, color: [u8; 4])
    requires
        old(canvas).wf(),
    ensures
        final(canvas).wf(),
        final(canvas).width == old(canvas).width,
        final(canvas).height == old(canvas).height,
        forall|j: int| 0 <= j < final(canvas).data@.len() ==> final(canvas).data@[j] == background_byte(
            old(canvas).data@, j, old(canvas).width as int, old(canvas).height as int, radius as int, color@),
        final(canvas).data@ == painted(
            old(canvas).data@, old(canvas).width as int, old(canvas).height as int, radius as int, color@),
{
    let ghost before = canvas.data@;
    let _ = canvas.data.len();
    let w = canvas.width;
    let h = canvas.height;
    if w == 0 {
        // A canvas without columns has no pixels to paint.
        assert(4 * (w as int) * (h as int) == 0);
        assert(canvas.data@ =~= painted(before, w as int, h as int, radius as int, color@));
        return;
    }
    let n: usize = canvas.data.len() / 4;
    assert(4 * (w as int) * (h as int) == 4 * ((w as int) * (h as int))) by (nonlinear_arith);
    assert(n == (w as int) * (h as int));
    let mut p: usize = 0;
    while p < n
        invariant
            canvas.width == w,
            canvas.height == h,
            w > 0,
            n == (w as int) * (h as int),
            canvas.data@.len() == before.len(),
            before.len() == 4 * n,
            before.len() <= usize::MAX,
            p <= n,
            forall|j: int| 0 <= j < 4 * p ==> canvas.data@[j] == background_byte(
                before, j, w as int, h as int, radius as int, color@),
            forall|j: int| 4 * p <= j < before.len() ==> canvas.data@[j] == before[j],
        decreases n - p,
    {
        proof {
            assert((p as int) / (w as int) < h as int) by (nonlinear_arith)
                requires (p as int) < (w as int) * (h as int), w > 0, p >= 0;
            assert((p as int) % (w as int) < w as int) by (nonlinear_arith)
                requires w > 0, p >= 0;
        }
        let x = (p % (w as usize)) as u32;
        let y = (p / (w as usize)) as u32;
        let inside = is_inside_rounded_rect(x, y, w, h, radius);
        if inside {
            canvas.data.set(4 * p, color[0]);
            canvas.data.set(4 * p + 1, color[1]);
            canvas.data.set(4 * p + 2, color[2]);
            canvas.data.set(4 * p + 3, color[3]);
        }
        proof {
            assert forall|j: int| 4 * p <= j < 4 * p + 4 implies canvas.data@[j] == background_byte(
                before, j, w as int, h as int, radius as int, color@) by {
                assert(j / 4 == p);
            }
        }
        p = p + 1;
    }
    assert(canvas.data@ =~= painted(before, w as int, h as int, radius as int, color@));
}

/// Sets the red, green and blue channels of every pixel to zero and keeps
/// every alpha byte as it was.
pub fn recolor_dark(img: &mut RgbaPixels)
    requires
        old(img).wf(),
    ensures
        final(img).wf(),
        final(img).width == old(img).width,
        final(img).height == old(img).height,
        final(img).data@.len() == old(img).data@.len(),
        forall|j: int| 0 <= j < final(img).data@.len() ==> final(img).data@[j] == (if j % 4 == 3 {
            old(img).data@[j]
        } else {
            0u8
        }),
        final(img).data@ == recolored(old(img).data@),
{
    let ghost before = img.data@;
    let n = img.data.len();
    let mut j: usize = 0;
    while j < n
        invariant
            img.width == old(img).width,
            img.height == old(img).height,
            img.data@.len() == n,
            n == before.len(),
            j <= n,
            forall|k: int| 0 <= k < j ==> img.data@[k] == (if k % 4 == 3 { before[k] } else { 0u8 }),
            forall|k: int| j <= k < n ==> img.data@[k] == before[k],
        decreases n - j,
    {
        if j % 4 != 3 {
            img.data.set(j, 0);
        }
        j = j + 1;
    }
    assert(img.data@ =~= recolored(before));
}

/// The pixel of byte offset `j` in an image `w` pixels wide, as `(x, y)`.
pub open spec fn covers(c: Coverage, j: int, w: int) -> bool {
    j / 4 == (c.y as int) * w + (c.x as int)
}

/// The byte at `j` once coverage `c` of colour `color` is composited over
/// `before` with the "over" operator; pixels that `c` does not reach, and
/// zero coverage, leave it unchanged.
pub open spec fn blended_byte(before: Seq<u8>, j: int, w: int, h: int, c: Coverage, color: Seq<u8>) -> int {
    let base = j - j % 4;
    if c.x < w && c.y < h && c.alpha > 0 && covers(c, j, w) {
        if j % 4 == 3 {
            over_alpha(c.alpha as int, before[j] as int)
        } else {
            over_channel(color[j % 4] as int, before[j] as int, c.alpha as int, before[base + 3] as int)
        }
    } else {
        before[j] as int
    }
}

fn blend_channel(sc: u8, dc: u8, sa: u8, da: u8) -> (r: u8)
    requires
        sa > 0,
    ensures
        r == over_channel(sc as int, dc as int, sa as int, da as int),
{
    proof {
        assert((sa as int) * 255 <= 65025 && (da as int) * (255 - sa as int) <= 65025) by (nonlinear_arith)
            requires 0 < sa <= 255, 0 <= da <= 255;
        assert((sc as int) * (sa as int) <= 65025 && (dc as int) * (da as int) <= 65025) by (nonlinear_arith)
            requires 0 <= sc <= 255, 0 < sa <= 255, 0 <= dc <= 255, 0 <= da <= 255;
        assert((sc as int) * (sa as int) * 255 <= 65025 * 255) by (nonlinear_arith)
            requires (sc as int) * (sa as int) <= 65025;
        assert((dc as int) * (da as int) * (255 - sa as int) <= 65025 * 255) by (nonlinear_arith)
            requires (dc as int) * (da as int) <= 65025, 0 < sa <= 255;
        assert((dc as int) * (da as int) >= 0 && (sc as int) * (sa as int) >= 0) by (nonlinear_arith)
            requires 0 <= sc, 0 <= sa, 0 <= dc, 0 <= da;
    }
    let combined: u64 = (sa as u64) * 255 + (da as u64) * (255 - sa as u64);
    let num: u64 = (sc as u64) * (sa as u64) * 255 + (dc as u64) * (da as u64) * (255 - sa as u64);
    proof {
        assert(combined > 0) by (nonlinear_arith)
            requires combined == (sa as int) * 255 + (da as int) * (255 - sa as int), sa > 0, sa <= 255, da >= 0;
        assert(num <= 255 * combined) by (nonlinear_arith)
            requires
                num == (sc as int) * (sa as int) * 255 + (dc as int) * (da as int) * (255 - sa as int),
                combined == (sa as int) * 255 + (da as int) * (255 - sa as int),
                0 <= sc <= 255, 0 <= dc <= 255, 0 < sa <= 255, 0 <= da <= 255;
        assert(num / combined <= 255) by (nonlinear_arith)
            requires num <= 255 * combined, combined > 0, num >= 0;
    }
    (num / combined) as u8
}

fn blend_alpha(sa: u8, da: u8) -> (r: u8)
    ensures
        r == over_alpha(sa as int, da as int),
{
    proof {
        assert((sa as int) * 255 + (da as int) * (255 - sa as int) <= 255 * 255) by (nonlinear_arith)
            requires 0 <= sa <= 255, 0 <= da <= 255;
        assert((da as int) * (255 - sa as int) >= 0) by (nonlinear_arith)
            requires 0 <= sa <= 255, 0 <= da <= 255;
    }
    let combined: u64 = (sa as u64) * 255 + (da as u64) * (255 - sa as u64);
    (combined / 255) as u8
}

/// Composites coverage `c` of colour `color` onto `canvas` with the "over"
/// operator. Coverage outside the canvas, and zero coverage, change nothing.
pub fn blend_coverage(canvas: &mut RgbaPixels, c: Coverage, color: [u8; 3])
    requires
        old(canvas).wf(),
    ensures
        final(canvas).wf(),
        final(canvas).width == old(canvas).width,
        final(canvas).height == old(canvas).height,
        forall|j: int| 0 <= j < final(canvas).data@.len() ==> final(canvas).data@[j] == blended_byte(
            old(canvas).data@, j, old(canvas).width as int, old(canvas).height as int, c, color@),
        final(canvas).data@ == blended(
            old(canvas).data@, old(canvas).width as int, old(canvas).height as int, c, color@),
{
    let ghost before = canvas.data@;
    let ghost w = canvas.width as int;
    let ghost h = canvas.height as int;
    let len = canvas.data.len();
    if c.x < canvas.width && c.y < canvas.height && c.alpha > 0 {
        proof {
            assert((c.y as int) * w + (c.x as int) < w * h) by (nonlinear_arith)
                requires c.y < h, c.x < w, c.y >= 0;
            assert(4 * w * h == 4 * (w * h)) by (nonlinear_arith);
            assert((c.y as int) * w >= 0) by (nonlinear_arith) requires c.y >= 0, w >= 0;
        }
        let p: usize = (c.y as usize) * (canvas.width as usize) + (c.x as usize);
        let da = canvas.data[4 * p + 3];
        let r = blend_channel(color[0], canvas.data[4 * p], c.alpha, da);
        let g = blend_channel(color[1], canvas.data[4 * p + 1], c.alpha, da);
        let b = blend_channel(color[2], canvas.data[4 * p + 2], c.alpha, da);
        let a = blend_alpha(c.alpha, da);
        canvas.data.set(4 * p, r);
        canvas.data.set(4 * p + 1, g);
        canvas.data.set(4 * p + 2, b);
        canvas.data.set(4 * p + 3, a);
        proof {
            assert forall|j: int| 0 <= j < canvas.data@.len() implies canvas.data@[j] == blended_byte(
                before, j, w, h, c, color@) by {
                if 4 * p <= j < 4 * p + 4 {
                    assert(j / 4 == p);
                    assert(j - j % 4 == 4 * p);
                } else {
                    assert(j / 4 != p);
                }
            }
        }
    }
    assert(canvas.data@ =~= blended(before, w, h, c, color@));
}

} // verus!
