use freshtracks::canvas::{blend_coverage, recolor_dark, transparent_canvas, Coverage, RgbaPixels};
use freshtracks::compositor::{canvas_width, compose_tray_image, scaled_icon_width, TextMask};

fn sample_icon() -> Vec<u8> {
    let img = image::RgbaImage::from_fn(8, 8, |x, _| image::Rgba([255, 255, 255, (x * 30) as u8]));
    let mut out: Vec<u8> = Vec::new();
    img.write_to(&mut std::io::Cursor::new(&mut out), image::ImageFormat::Png).unwrap();
    out
}

#[test]
fn recolor_keeps_alpha_and_zeroes_colour() {
    let mut img = RgbaPixels { width: 2, height: 1, data: vec![255, 200, 100, 7, 1, 2, 3, 250] };
    recolor_dark(&mut img);
    assert_eq!(img.data, vec![0, 0, 0, 7, 0, 0, 0, 250]);
}

#[test]
fn canvas_widths() {
    assert_eq!(canvas_width(None), 60);
    assert_eq!(canvas_width(Some(50)), 118);
    assert_eq!(scaled_icon_width(64, 64, 34), Some(34));
    assert_eq!(scaled_icon_width(30, 20, 40), Some(60));
    assert_eq!(scaled_icon_width(1, 100, 34), None);
}

#[test]
fn blend_over_opaque_text() {
    let mut c = transparent_canvas(2, 2);
    c.data[12..16].copy_from_slice(&[255, 255, 255, 180]);
    blend_coverage(&mut c, Coverage { x: 1, y: 1, alpha: 255 }, [0, 0, 0]);
    assert_eq!(&c.data[12..16], &[0, 0, 0, 255]);
    blend_coverage(&mut c, Coverage { x: 5, y: 0, alpha: 255 }, [0, 0, 0]);
    assert_eq!(&c.data[0..4], &[0, 0, 0, 0]);
}

#[test]
fn blend_half_coverage_over_glass() {
    let mut c = transparent_canvas(1, 1);
    c.data.copy_from_slice(&[255, 255, 255, 180]);
    blend_coverage(&mut c, Coverage { x: 0, y: 0, alpha: 128 }, [0, 0, 0]);
    // combined = 128*255 + 180*127 = 55500; alpha 55500/255 = 217
    // colour = 255*180*127 / 55500 = 105
    assert_eq!(c.data, vec![105, 105, 105, 217]);
}

#[test]
fn idle_icon_has_glass_background_and_cut_corners() {
    let png = compose_tray_image(&sample_icon(), None).expect("renders");
    let img = image::load_from_memory(&png).unwrap().to_rgba8();
    assert_eq!(img.dimensions(), (60, 44));
    assert_eq!(img.get_pixel(0, 0).0, [0, 0, 0, 0]);
    assert_eq!(img.get_pixel(30, 0).0, [255, 255, 255, 180]);
}

#[test]
fn text_icon_is_wider_and_draws_coverage() {
    let mask = TextMask { width: 50, coverage: vec![Coverage { x: 70, y: 20, alpha: 255 }] };
    let png = compose_tray_image(&sample_icon(), Some(&mask)).expect("renders");
    let img = image::load_from_memory(&png).unwrap().to_rgba8();
    assert_eq!(img.dimensions(), (118, 44));
    assert_eq!(img.get_pixel(70, 20).0, [0, 0, 0, 255]);
    assert_eq!(img.get_pixel(100, 20).0, [255, 255, 255, 180]);
}

#[test]
fn rendering_is_deterministic() {
    let icon = sample_icon();
    let a = compose_tray_image(&icon, None).unwrap();
    let b = compose_tray_image(&icon, None).unwrap();
    assert_eq!(a, b);
}

#[test]
fn undecodable_icon_renders_nothing() {
    assert!(compose_tray_image(&[1, 2, 3], None).is_none());
}

#[test]
fn icon_is_drawn_dark_over_the_glass() {
    let png = compose_tray_image(&sample_icon(), None).expect("renders");
    let img = image::load_from_memory(&png).unwrap().to_rgba8();
    // The idle icon covers x 10..50 and y 2..42; its right columns are nearly opaque.
    let p = img.get_pixel(46, 20).0;
    assert!(p[0] < 128, "icon pixel should be dark, got {:?}", p);
    assert_eq!(p[0], p[1]);
    assert_eq!(p[1], p[2]);
    // Left of the icon only the glass shows.
    assert_eq!(img.get_pixel(5, 20).0, [255, 255, 255, 180]);
}

#[test]
fn valid_icon_renders_with_and_without_text() {
    let icon = sample_icon();
    assert!(compose_tray_image(&icon, None).is_some());
    let empty = TextMask { width: 0, coverage: vec![] };
    let png = compose_tray_image(&icon, Some(&empty)).expect("renders");
    let img = image::load_from_memory(&png).unwrap().to_rgba8();
    assert_eq!(img.dimensions(), (68, 44));
}

#[test]
fn icon_scaling_to_nothing_renders_nothing() {
    let img = image::RgbaImage::from_pixel(1, 100, image::Rgba([255, 255, 255, 255]));
    let mut out: Vec<u8> = Vec::new();
    img.write_to(&mut std::io::Cursor::new(&mut out), image::ImageFormat::Png).unwrap();
    assert!(compose_tray_image(&out, Some(&TextMask { width: 10, coverage: vec![] })).is_none());
}

#[test]
fn background_on_empty_canvas_is_a_no_op() {
    let mut c = transparent_canvas(0, 5);
    freshtracks::canvas::fill_rounded_background(&mut c, 6, [1, 2, 3, 4]);
    assert!(c.data.is_empty());
}
