use vstd::prelude::*;
use crate::canvas::{
    blend_coverage, blended_prefix, fill_rounded_background, painted, recolor_dark, recolored,
    transparent_bytes, transparent_canvas, Coverage, RgbaPixels,
};

verus! {

/// Height of the status icon in pixels, at twice the nominal resolution.
pub const CANVAS_HEIGHT: u32 = 44;
/// Empty space left and right of the content.
pub const H_PADDING: u32 = 10;
/// Radius of the background's rounded corners.
pub const BORDER_RADIUS: u32 = 6;
/// Side of the icon when a readout is shown beside it.
pub const TEXT_ICON_SIZE: u32 = 34;
/// Side of the icon when no readout is shown.
pub const IDLE_ICON_SIZE: u32 = 40;
/// Space between the icon and the readout.
pub const TEXT_GAP: u32 = 14;
/// Horizontal position at which the readout starts.
pub const TEXT_X: u32 = H_PADDING + TEXT_ICON_SIZE + TEXT_GAP;
/// Largest measured text width that the compositor accepts.
pub const MAX_TEXT_WIDTH: u32 = 1_000_000;

/// A rasterized readout: its measured width and the coverage of every glyph
/// pixel, in canvas coordinates.
pub struct TextMask {
    pub width: u32,
    pub coverage: Vec<Coverage>,
}

/// Whether the image crate decodes `bytes` into an image.
pub uninterp spec fn image_decodes(bytes: Seq<u8>) -> bool;

/// Width, height and RGBA8 bytes of the image that the image crate decodes
/// from `bytes`.
pub uninterp spec fn decoded_rgba(bytes: Seq<u8>) -> (u32, u32, Seq<u8>);

/// The RGBA8 bytes of a `w` by `h` image resized to `nw` by `nh` with the
/// Lanczos3 filter.
pub uninterp spec fn lanczos3_resized(data: Seq<u8>, w: u32, h: u32, nw: u32, nh: u32) -> Seq<u8>;

/// The bytes of a `bw` by `bh` image once a `tw` by `th` image is drawn over
/// it at `(x, y)`, each pixel blended over the one below.
pub uninterp spec fn overlaid(
    bottom: Seq<u8>,
    bw: u32,
    bh: u32,
    top: Seq<u8>,
    tw: u32,
    th: u32,
    x: i64,
    y: i64,
) -> Seq<u8>;

/// The PNG file that the image crate writes for an RGBA image.
pub uninterp spec fn png_encoding(width: u32, height: u32, data: Seq<u8>) -> Seq<u8>;

/// Relies on `image::load_from_memory` and `DynamicImage::to_rgba8`: decoding
/// depends on the bytes alone, and an RGBA8 buffer holds four bytes a pixel.
#[verifier::external_body]
fn decode_rgba(bytes: &[u8]) -> (r: Option<RgbaPixels>)
    ensures
        r is Some == image_decodes(bytes@),
        r is Some ==> r->0.wf(),
        r is Some ==> (r->0.width, r->0.height, r->0.data@) == decoded_rgba(bytes@),
{
    match image::load_from_memory(bytes) {
        Ok(img) => {
            let rgba = img.to_rgba8();
            let (width, height) = rgba.dimensions();
            Some(RgbaPixels { width, height, data: rgba.into_raw() })
        },
        Err(_) => None,
    }
}

/// Relies on `image::imageops::resize` with the Lanczos3 filter: the result
/// is `nwidth` by `nheight`. `ImageBuffer::from_raw` accepts a buffer of four
/// bytes a pixel. The buffers it allocates, `nheight` rows of the source's
/// width and then of `nwidth`, must fit in memory.
#[verifier::external_body]
fn resize_lanczos3(img: &RgbaPixels, nwidth: u32, nheight: u32) -> (r: Option<RgbaPixels>)
    requires
        img.wf(),
        4 * (nwidth as int) * (nheight as int) <= usize::MAX,
        4 * (img.width as int) * (nheight as int) <= usize::MAX,
    ensures
        r is Some,
        r->0.wf(),
        r->0.width == nwidth,
        r->0.height == nheight,
        r->0.data@ == lanczos3_resized(img.data@, img.width, img.height, nwidth, nheight),
{
    let src = image::RgbaImage::from_raw(img.width, img.height, img.data.clone())?;
    let out = image::imageops::resize(&src, nwidth, nheight, image::imageops::FilterType::Lanczos3);
    Some(RgbaPixels { width: nwidth, height: nheight, data: out.into_raw() })
}

/// Relies on `image::imageops::overlay`: it draws `top` onto `bottom` at
/// `(x, y)` in place, keeping the size of `bottom`.
#[verifier::external_body]
fn overlay_at(bottom: &mut RgbaPixels, top: &RgbaPixels, x: i64, y: i64)
    requires
        old(bottom).wf(),
        top.wf(),
    ensures
        final(bottom).wf(),
        final(bottom).width == old(bottom).width,
        final(bottom).height == old(bottom).height,
        final(bottom).data@ == overlaid(
            old(bottom).data@, old(bottom).width, old(bottom).height, top.data@, top.width, top.height, x, y),
{
    let data = std::mem::take(&mut bottom.data);
    if let (Some(mut b), Some(t)) = (
        image::RgbaImage::from_raw(bottom.width, bottom.height, data),
        image::RgbaImage::from_raw(top.width, top.height, top.data.clone()),
    ) {
        image::imageops::overlay(&mut b, &t, x, y);
        bottom.data = b.into_raw();
    }
}

/// Relies on `ImageBuffer::write_to` with `ImageFormat::Png`: the file
/// written depends on the image alone. The PNG encoder refuses only an
/// image with a zero side, and writing to a `Vec` does not fail.
#[verifier::external_body]
fn encode_png(img: &RgbaPixels) -> (r: Option<Vec<u8>>)
    requires
        img.wf(),
    ensures
        r is Some ==> r->0@ == png_encoding(img.width, img.height, img.data@),
        img.width > 0 && img.height > 0 ==> r is Some,
{
    let buf = image::RgbaImage::from_raw(img.width, img.height, img.data.clone())?;
    let mut out: Vec<u8> = Vec::new();
    buf.write_to(&mut std::io::Cursor::new(&mut out), image::ImageFormat::Png).ok()?;
    Some(out)
}

/// Width of the canvas: the idle icon alone, or the small icon, the gap and
/// the measured text, each with the side padding.
pub open spec fn canvas_width_for(text_width: Option<u32>) -> int {
    match text_width {
        None => IDLE_ICON_SIZE + 2 * H_PADDING,
        Some(t) => TEXT_ICON_SIZE + TEXT_GAP + t + 2 * H_PADDING,
    }
}

/// The measured width of an optional readout.
pub open spec fn mask_width(text: Option<&TextMask>) -> Option<u32> {
    match text {
        Some(t) => Some(t.width),
        None => None,
    }
}

/// The readout as its width and coverage pixels.
pub open spec fn mask_view(text: Option<&TextMask>) -> Option<(u32, Seq<Coverage>)> {
    match text {
        Some(t) => Some((t.width, t.coverage@)),
        None => None,
    }
}

/// The canvas of the status icon before it is encoded: the background, the
/// recoloured icon `icon` scaled to `sw` by `side` and drawn at the left
/// padding, vertically centred, and the readout's coverage in black.
pub open spec fn tray_canvas(
    icon: (u32, u32, Seq<u8>),
    width: u32,
    sw: u32,
    side: u32,
    text: Option<(u32, Seq<Coverage>)>,
) -> Seq<u8> {
    let bg = painted(
        transparent_bytes(width as int, CANVAS_HEIGHT as int),
        width as int,
        CANVAS_HEIGHT as int,
        BORDER_RADIUS as int,
        seq![255u8, 255u8, 255u8, 180u8],
    );
    let scaled = lanczos3_resized(recolored(icon.2), icon.0, icon.1, sw, side);
    let with_icon = overlaid(
        bg,
        width,
        CANVAS_HEIGHT,
        scaled,
        sw,
        side,
        H_PADDING as i64,
        ((CANVAS_HEIGHT - side) / 2) as i64,
    );
    match text {
        Some(t) => blended_prefix(with_icon, width as int, CANVAS_HEIGHT as int, t.1, t.1.len(), seq![0u8, 0u8, 0u8]),
        None => with_icon,
    }
}

/// Whether the status icon can be drawn from the PNG `icon_png`: it
/// decodes to an image with no empty side, and its scaled copy is not empty,
/// has a width that fits a `u32`, and fits in memory with the resize's
/// intermediate buffer.
pub open spec fn icon_renders(icon_png: Seq<u8>, has_text: bool) -> bool {
    let icon = decoded_rgba(icon_png);
    let side = icon_side(has_text);
    let sw = scaled_width(icon.0 as int, icon.1 as int, side);
    &&& image_decodes(icon_png)
    &&& icon.0 > 0
    &&& icon.1 > 0
    &&& 0 < sw <= u32::MAX
    &&& 4 * sw * side <= usize::MAX
    &&& 4 * (icon.0 as int) * side <= usize::MAX
}

/// The PNG file of the status icon drawn from the PNG `icon_png` with the
/// readout `text`.
pub open spec fn tray_png(icon_png: Seq<u8>, text: Option<(u32, Seq<Coverage>)>) -> Seq<u8> {
    let icon = decoded_rgba(icon_png);
    let width = canvas_width_for(match text {
        Some(t) => Some(t.0),
        None => None,
    }) as u32;
    let side = icon_side(text is Some) as u32;
    let sw = scaled_width(icon.0 as int, icon.1 as int, side as int) as u32;
    png_encoding(width, CANVAS_HEIGHT, tray_canvas(icon, width, sw, side, text))
}

/// Side of the icon: smaller when a readout shares the canvas.
pub open spec fn icon_side(has_text: bool) -> int {
    if has_text { TEXT_ICON_SIZE as int } else { IDLE_ICON_SIZE as int }
}

/// Width of an icon `w` by `h` scaled to height `side`, keeping its aspect
/// ratio, rounded down.
pub open spec fn scaled_width(w: int, h: int, side: int) -> int {
    w * side / h
}

/// Computes the canvas width for an optional measured text width.
pub fn canvas_width(text_width: Option<u32>) -> (r: u32)
    requires
        text_width is Some ==> text_width->0 <= MAX_TEXT_WIDTH,
    ensures
        r == canvas_width_for(text_width),
{
    match text_width {
        None => IDLE_ICON_SIZE + 2 * H_PADDING,
        Some(t) => TEXT_ICON_SIZE + TEXT_GAP + t + 2 * H_PADDING,
    }
}

/// Computes the width of the scaled icon, or `None` where it does not fit a
/// `u32` or comes to zero.
pub fn scaled_icon_width(w: u32, h: u32, side: u32) -> (r: Option<u32>)
    requires
        h > 0,
    ensures
        r is Some <==> 0 < scaled_width(w as int, h as int, side as int) <= u32::MAX,
        r is Some ==> r->0 == scaled_width(w as int, h as int, side as int),
{
    proof {
        assert((w as int) * (side as int) <= 0xffff_ffff * 0xffff_ffff) by (nonlinear_arith)
            requires 0 <= w <= 0xffff_ffff, 0 <= side <= 0xffff_ffff;
    }
    let v: u128 = (w as u128) * (side as u128) / (h as u128);
    if v == 0 || v > u32::MAX as u128 {
        None
    } else {
        Some(v as u32)
    }
}

/// Draws the status icon: the translucent rounded background spanning the
/// canvas, the embedded icon recoloured dark and scaled, and the readout's
/// glyph coverage in black, then encodes the canvas as PNG. `None` exactly
/// when the icon does not decode, has an empty side, or scales to nothing or
/// to more than memory holds.
pub fn compose_tray_image(icon_png: &[u8], text: Option<&TextMask>) -> (r: Option<Vec<u8>>)
    requires
        text is Some ==> text->0.width <= MAX_TEXT_WIDTH,
    ensures
        r is Some <==> icon_renders(icon_png@, text is Some),
        r is Some ==> r->0@ == tray_png(icon_png@, mask_view(text)),
{
    let mut icon = match decode_rgba(icon_png) {
        Some(i) => i,
        None => { return None; },
    };
    if icon.width == 0 || icon.height == 0 {
        return None;
    }
    recolor_dark(&mut icon);
    let text_width = match text {
        Some(t) => Some(t.width),
        None => None,
    };
    let width = canvas_width(text_width);
    let mut canvas = transparent_canvas(width, CANVAS_HEIGHT);
    fill_rounded_background(&mut canvas, BORDER_RADIUS, [255, 255, 255, 180]);
    let side = if text.is_some() { TEXT_ICON_SIZE } else { IDLE_ICON_SIZE };
    let sw = match scaled_icon_width(icon.width, icon.height, side) {
        Some(v) => v,
        None => { return None; },
    };
    proof {
        assert(4 * (sw as int) * (side as int) <= 4 * 0xffff_ffff * 40) by (nonlinear_arith)
            requires 0 <= sw <= 0xffff_ffff, 0 <= side <= 40;
        assert(4 * (icon.width as int) * (side as int) <= 4 * 0xffff_ffff * 40) by (nonlinear_arith)
            requires 0 <= icon.width <= 0xffff_ffff, 0 <= side <= 40;
    }
    let sizes_fit = 4 * (sw as u128) * (side as u128) <= usize::MAX as u128
        && 4 * (icon.width as u128) * (side as u128) <= usize::MAX as u128;
    if !sizes_fit {
        return None;
    }
    let scaled = match resize_lanczos3(&icon, sw, side) {
        Some(s) => s,
        None => { return None; },
    };
    overlay_at(&mut canvas, &scaled, H_PADDING as i64, ((CANVAS_HEIGHT - side) / 2) as i64);
    let ghost with_icon = canvas.data@;
    if let Some(t) = text {
        let n = t.coverage.len();
        let mut i: usize = 0;
        while i < n
            invariant
                canvas.wf(),
                canvas.width == width,
                canvas.height == CANVAS_HEIGHT,
                n == t.coverage@.len(),
                i <= n,
                canvas.data@ == blended_prefix(
                    with_icon, width as int, CANVAS_HEIGHT as int, t.coverage@, i as nat, seq![0u8, 0u8, 0u8]),
            decreases n - i,
        {
            let ghost prev = canvas.data@;
            blend_coverage(&mut canvas, t.coverage[i], [0, 0, 0]);
            proof {
                assert([0u8, 0u8, 0u8]@ =~= seq![0u8, 0u8, 0u8]);
            }
            i = i + 1;
        }
    }
    let out = encode_png(&canvas);
    proof {
        assert(text_width == mask_width(text));
        assert(width == canvas_width_for(mask_width(text)) as u32);
        assert([255u8, 255u8, 255u8, 180u8]@ =~= seq![255u8, 255u8, 255u8, 180u8]);
        assert(canvas.data@ == tray_canvas(decoded_rgba(icon_png@), width, sw, side, mask_view(text)));
        if out is Some {
            assert(out->0@ == png_encoding(width, CANVAS_HEIGHT, canvas.data@));
        }
    }
    out
}

} // verus!
