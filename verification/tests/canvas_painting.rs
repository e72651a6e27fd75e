use can_dashboard::canvas::Font;
use can_dashboard::canvas::PixelBuffer;
use can_dashboard::canvas::StrokeStyle;
use can_dashboard::canvas::TextStyle;
use can_dashboard::geometry::Point;
use can_dashboard::geometry::Rectangle;
use embedded_graphics::draw_target::DrawTargetExt;
use embedded_graphics::geometry::Angle;
use embedded_graphics::mono_font::ascii::FONT_10X20;
use embedded_graphics::mono_font::ascii::FONT_8X13;
use embedded_graphics::mono_font::MonoTextStyle;
use embedded_graphics::pixelcolor::raw::RawU16;
use embedded_graphics::pixelcolor::Rgb565;
use embedded_graphics::primitives::Arc;
use embedded_graphics::primitives::Circle;
use embedded_graphics::primitives::Line;
use embedded_graphics::primitives::PrimitiveStyle;
use embedded_graphics::primitives::StyledDrawable;
use embedded_graphics::text::Alignment;
use embedded_graphics::text::Text;
use embedded_graphics::Drawable;
use lcd_async::raw_framebuf::RawFrameBuf;

const W: usize = 32;
const H: usize = 24;

fn whole() -> Rectangle {
    Rectangle { top_left: Point { x: 0, y: 0 }, width: W as u32, height: H as u32 }
}

fn raster_point(x: i32, y: i32) -> embedded_graphics::geometry::Point {
    embedded_graphics::geometry::Point::new(x, y)
}

fn raster_area(area: Rectangle) -> embedded_graphics::primitives::Rectangle {
    embedded_graphics::primitives::Rectangle::new(
        raster_point(area.top_left.x, area.top_left.y),
        embedded_graphics::geometry::Size::new(area.width, area.height),
    )
}

fn pixel(bytes: &[u8], x: usize, y: usize) -> u16 {
    let at = (y * W + x) * 2;
    u16::from_be_bytes([bytes[at], bytes[at + 1]])
}

fn patterned() -> Vec<u8> {
    (0..W * H * 2).map(|i| (i % 251) as u8).collect()
}

#[test]
fn new_frame_is_all_zero() {
    let frame = PixelBuffer::<W, H>::new();
    assert_eq!(frame.as_bytes().len(), W * H * 2);
    assert!(frame.as_bytes().iter().all(|&b| b == 0));
    let empty = PixelBuffer::<0, 7>::new();
    assert_eq!(empty.into_bytes(), Vec::<u8>::new());
}

#[test]
fn frame_takes_exactly_its_own_number_of_bytes() {
    let bytes = patterned();
    let frame = PixelBuffer::<W, H>::from_bytes(bytes.clone()).unwrap();
    assert_eq!(frame.as_bytes(), bytes.as_slice());
    assert_eq!(frame.into_bytes(), bytes);
    let mut short = patterned();
    short.pop();
    assert!(PixelBuffer::<W, H>::from_bytes(short).is_none());
    let mut long = patterned();
    long.push(0);
    assert!(PixelBuffer::<W, H>::from_bytes(long).is_none());
    assert!(PixelBuffer::<W, H>::from_bytes(Vec::new()).is_none());
    assert!(PixelBuffer::<{ usize::MAX }, 2>::from_bytes(vec![0; 4]).is_none());
    assert!(PixelBuffer::<{ usize::MAX }, 1>::from_bytes(vec![0; 4]).is_none());
}

#[test]
fn thin_line_sets_the_pixels_between_its_ends() {
    let mut frame = PixelBuffer::<W, H>::new();
    let style = StrokeStyle { color: 0xF811, width: 1 };
    frame.draw_line(whole(), Point { x: 2, y: 5 }, Point { x: 6, y: 5 }, style);
    let bytes = frame.into_bytes();
    for y in 0..H {
        for x in 0..W {
            let on = y == 5 && (2..=6).contains(&x);
            assert_eq!(pixel(&bytes, x, y), if on { 0xF811 } else { 0 });
        }
    }
    // The high byte of a pixel comes first.
    assert_eq!(bytes[(5 * W + 2) * 2], 0xF8);
    assert_eq!(bytes[(5 * W + 2) * 2 + 1], 0x11);
}

#[test]
fn line_is_cut_at_the_clipping_rectangle() {
    let mut frame = PixelBuffer::<W, H>::from_bytes(patterned()).unwrap();
    let clip = Rectangle { top_left: Point { x: 4, y: 4 }, width: 2, height: 3 };
    let style = StrokeStyle { color: 0x055D, width: 1 };
    frame.draw_line(clip, Point { x: -3, y: 5 }, Point { x: 40, y: 5 }, style);
    let bytes = frame.into_bytes();
    let before = patterned();
    for y in 0..H {
        for x in 0..W {
            let on = y == 5 && (x == 4 || x == 5);
            assert_eq!(pixel(&bytes, x, y), if on { 0x055D } else { pixel(&before, x, y) });
        }
    }
}

#[test]
fn line_is_drawn_as_the_rasteriser_draws_it() {
    let cases = [
        (Point { x: 1, y: 1 }, Point { x: 30, y: 20 }, 4),
        (Point { x: 30, y: 2 }, Point { x: 3, y: 22 }, 3),
        (Point { x: 10, y: 10 }, Point { x: 10, y: 10 }, 2),
        (Point { x: -1280, y: -1280 }, Point { x: 1280, y: 1280 }, 4),
        (Point { x: 1280, y: -1280 }, Point { x: -1280, y: 1279 }, 4),
        (Point { x: 5, y: 5 }, Point { x: 25, y: 6 }, 0),
    ];
    for &(from, to, width) in cases.iter() {
        let mut frame = PixelBuffer::<W, H>::from_bytes(patterned()).unwrap();
        frame.draw_line(whole(), from, to, StrokeStyle { color: 0xEA16, width });
        let mut expected = patterned();
        let mut target = RawFrameBuf::<Rgb565, _>::new(expected.as_mut_slice(), W, H);
        Line::new(raster_point(from.x, from.y), raster_point(to.x, to.y))
            .draw_styled(&PrimitiveStyle::with_stroke(Rgb565::from(RawU16::new(0xEA16)), width), &mut target)
            .unwrap();
        assert_eq!(frame.as_bytes(), expected.as_slice());
        if width > 0 {
            assert_ne!(frame.as_bytes(), patterned().as_slice());
        }
    }
}

#[test]
fn arc_is_drawn_as_the_rasteriser_draws_it() {
    let cases = [(120u16, 300u16, 21u32, 3u32), (0, 60, 17, 3), (100, 340, 9, 1), (0, 360, 23, 4), (360, 0, 10, 2)];
    let clip = Rectangle { top_left: Point { x: 3, y: 2 }, width: 25, height: 19 };
    for &(start, sweep, diameter, width) in cases.iter() {
        let mut frame = PixelBuffer::<W, H>::from_bytes(patterned()).unwrap();
        let style = StrokeStyle { color: 0x055D, width };
        frame.draw_arc(clip, Point { x: 16, y: 12 }, diameter, start, sweep, style);
        let mut expected = patterned();
        let mut target = RawFrameBuf::<Rgb565, _>::new(expected.as_mut_slice(), W, H);
        Arc::with_center(
            raster_point(16, 12),
            diameter,
            Angle::from_degrees(start as f32),
            Angle::from_degrees(sweep as f32),
        )
        .draw_styled(
            &PrimitiveStyle::with_stroke(Rgb565::from(RawU16::new(0x055D)), width),
            &mut target.clipped(&raster_area(clip)),
        )
        .unwrap();
        assert_eq!(frame.as_bytes(), expected.as_slice());
        if sweep > 0 {
            assert_ne!(frame.as_bytes(), patterned().as_slice());
        }
    }
}

#[test]
fn full_arc_passes_through_the_four_ends_of_its_axes() {
    let mut frame = PixelBuffer::<W, H>::new();
    let style = StrokeStyle { color: 0xFFFF, width: 1 };
    frame.draw_arc(whole(), Point { x: 16, y: 12 }, 11, 0, 360, style);
    let bytes = frame.into_bytes();
    assert_eq!(pixel(&bytes, 21, 12), 0xFFFF);
    assert_eq!(pixel(&bytes, 11, 12), 0xFFFF);
    assert_eq!(pixel(&bytes, 16, 7), 0xFFFF);
    assert_eq!(pixel(&bytes, 16, 17), 0xFFFF);
    assert_eq!(pixel(&bytes, 16, 12), 0);
    assert_eq!(pixel(&bytes, 0, 0), 0);
}

#[test]
fn disc_is_filled_inside_the_clipping_rectangle_only() {
    let mut frame = PixelBuffer::<W, H>::new();
    let clip = Rectangle { top_left: Point { x: 10, y: 0 }, width: 22, height: 24 };
    frame.fill_disc(clip, Point { x: 16, y: 12 }, 15, 0x0026);
    let bytes = frame.into_bytes();
    assert_eq!(pixel(&bytes, 16, 12), 0x0026);
    assert_eq!(pixel(&bytes, 23, 12), 0x0026);
    assert_eq!(pixel(&bytes, 24, 12), 0);
    assert_eq!(pixel(&bytes, 10, 12), 0x0026);
    assert_eq!(pixel(&bytes, 9, 12), 0);
    assert_eq!(pixel(&bytes, 16, 5), 0x0026);
    assert_eq!(pixel(&bytes, 16, 4), 0);
    assert_eq!(pixel(&bytes, 22, 6), 0);
}

#[test]
fn disc_is_drawn_as_the_rasteriser_draws_it() {
    for &diameter in [0u32, 1, 2, 15, 16, 40, 2560].iter() {
        let mut frame = PixelBuffer::<W, H>::from_bytes(patterned()).unwrap();
        frame.fill_disc(whole(), Point { x: 15, y: 11 }, diameter, 0xF811);
        let mut expected = patterned();
        let mut target = RawFrameBuf::<Rgb565, _>::new(expected.as_mut_slice(), W, H);
        Circle::with_center(raster_point(15, 11), diameter)
            .draw_styled(&PrimitiveStyle::with_fill(Rgb565::from(RawU16::new(0xF811))), &mut target)
            .unwrap();
        assert_eq!(frame.as_bytes(), expected.as_slice());
        if diameter > 0 {
            assert_ne!(frame.as_bytes(), patterned().as_slice());
        }
    }
}

#[test]
fn text_is_drawn_as_the_rasteriser_draws_it() {
    let cases = [
        ("240", Font::Font8x13, Point { x: 16, y: 12 }),
        ("13", Font::Font10x20, Point { x: 16, y: 20 }),
        ("a\nb", Font::Font8x13, Point { x: 10, y: 10 }),
        ("\u{e9}t\u{e9}", Font::Font8x13, Point { x: 16, y: 12 }),
        ("0123456789012345678901234567890123456789012345678901234567890123", Font::Font10x20, Point { x: 0, y: 12 }),
    ];
    let clip = Rectangle { top_left: Point { x: 1, y: 1 }, width: 30, height: 22 };
    for &(text, font, anchor) in cases.iter() {
        let mut frame = PixelBuffer::<W, H>::from_bytes(patterned()).unwrap();
        frame.draw_text(clip, text, anchor, TextStyle { color: 0xFFFF, font });
        let mut expected = patterned();
        let mut target = RawFrameBuf::<Rgb565, _>::new(expected.as_mut_slice(), W, H);
        let face = match font {
            Font::Font8x13 => &FONT_8X13,
            Font::Font10x20 => &FONT_10X20,
        };
        Text::with_alignment(
            text,
            raster_point(anchor.x, anchor.y),
            MonoTextStyle::new(face, Rgb565::from(RawU16::new(0xFFFF))),
            Alignment::Center,
        )
        .draw(&mut target.clipped(&raster_area(clip)))
        .unwrap();
        assert_eq!(frame.as_bytes(), expected.as_slice());
        assert_ne!(frame.as_bytes(), patterned().as_slice());
    }
}

#[test]
fn empty_text_leaves_the_frame_alone() {
    let mut frame = PixelBuffer::<W, H>::from_bytes(patterned()).unwrap();
    let style = TextStyle { color: 0xFFFF, font: Font::Font8x13 };
    frame.draw_text(whole(), "", Point { x: 16, y: 12 }, style);
    assert_eq!(frame.into_bytes(), patterned());
}

#[test]
fn painting_outside_the_frame_leaves_it_alone() {
    let mut frame = PixelBuffer::<W, H>::from_bytes(patterned()).unwrap();
    let beside = Rectangle { top_left: Point { x: 32, y: 0 }, width: 100, height: 24 };
    let style = StrokeStyle { color: 0xFFFF, width: 4 };
    frame.draw_line(beside, Point { x: 0, y: 0 }, Point { x: 31, y: 23 }, style);
    frame.fill_disc(beside, Point { x: 16, y: 12 }, 100, 0xFFFF);
    frame.draw_arc(beside, Point { x: 16, y: 12 }, 20, 0, 360, style);
    let nothing = Rectangle { top_left: Point { x: 5, y: 5 }, width: 0, height: 9 };
    frame.fill_disc(nothing, Point { x: 16, y: 12 }, 100, 0xFFFF);
    assert_eq!(frame.into_bytes(), patterned());
}

#[test]
fn largest_frame_can_be_painted_from_corner_to_corner() {
    let mut frame = PixelBuffer::<1024, 1024>::new();
    let clip = Rectangle { top_left: Point { x: 0, y: 0 }, width: 1024, height: 1024 };
    let style = StrokeStyle { color: 0xFFFF, width: 4 };
    frame.draw_line(clip, Point { x: 0, y: 0 }, Point { x: 1023, y: 1023 }, style);
    frame.draw_arc(clip, Point { x: 512, y: 512 }, 1014, 120, 300, style);
    let bytes = frame.into_bytes();
    assert_eq!(bytes[0], 0xFF);
    assert_eq!(bytes[(700 * 1024 + 700) * 2], 0xFF);
    assert_eq!(bytes[(512 * 1024 + 5) * 2], 0xFF);
}
