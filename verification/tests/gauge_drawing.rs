use can_dashboard::canvas::PixelBuffer;
use can_dashboard::game::initialize_game;
use can_dashboard::game::render_system;
use can_dashboard::gauge::DashboardContext;
use can_dashboard::gauge::Gauge;
use can_dashboard::geometry::Point;
use can_dashboard::geometry::Ring;
use can_dashboard::DrawBufferStatus;
use embedded_graphics::draw_target::DrawTarget;
use embedded_graphics::draw_target::DrawTargetExt;
use embedded_graphics::geometry::Angle;
use embedded_graphics::mono_font::ascii::FONT_10X20;
use embedded_graphics::mono_font::ascii::FONT_8X13;
use embedded_graphics::mono_font::MonoTextStyle;
use embedded_graphics::pixelcolor::raw::RawU16;
use embedded_graphics::pixelcolor::Rgb565;
use embedded_graphics::primitives::Arc;
use embedded_graphics::primitives::Circle;
use embedded_graphics::primitives::Line;
use embedded_graphics::primitives::PrimitiveStyle;
use embedded_graphics::primitives::PrimitiveStyleBuilder;
use embedded_graphics::primitives::StyledDrawable;
use embedded_graphics::text::Alignment;
use embedded_graphics::text::Text;
use embedded_graphics::Drawable;
use lcd_async::raw_framebuf::RawFrameBuf;

const W: usize = 240;
const H: usize = 240;

type Speedo = Gauge<'static, W, H, 10, 162, 255>;

const TEXTS: [&str; 13] = ["1", "2", "3", "4", "5", "6", "7", "8", "9", "10", "11", "12", "13"];

fn ring(radius: i32) -> Ring {
    let r = radius as f32;
    let offsets = (0..360)
        .map(|a| {
            let angle_rad = a as f32 * core::f32::consts::PI / 180.0;
            Point { x: (r * angle_rad.cos()) as i32, y: (r * angle_rad.sin()) as i32 }
        })
        .collect();
    Ring::new(radius, offsets).unwrap()
}

fn context() -> DashboardContext<W, H> {
    DashboardContext::new(&ring(110), &ring(100), &ring(80), &ring(50)).unwrap()
}

fn patterned() -> Vec<u8> {
    (0..W * H * 2).map(|i| (i % 253) as u8).collect()
}

fn raster(p: Point) -> embedded_graphics::geometry::Point {
    embedded_graphics::geometry::Point::new(p.x, p.y)
}

fn color(raw: u16) -> Rgb565 {
    Rgb565::from(RawU16::new(raw))
}

fn stroke(raw: u16, width: u32) -> PrimitiveStyle<Rgb565> {
    PrimitiveStyleBuilder::new().stroke_color(color(raw)).stroke_width(width).build()
}

fn pixel(bytes: &[u8], x: usize, y: usize) -> u16 {
    let at = (y * W + x) * 2;
    u16::from_be_bytes([bytes[at], bytes[at + 1]])
}

fn clearing_area() -> embedded_graphics::primitives::Rectangle {
    embedded_graphics::primitives::Rectangle::new(
        embedded_graphics::geometry::Point::new(41, 41),
        embedded_graphics::geometry::Size::new(160, 160),
    )
}

/// The static artwork, drawn with the rasteriser itself.
fn static_artwork<D: DrawTarget<Color = Rgb565, Error = core::convert::Infallible>>(
    target: &mut D,
    context: &DashboardContext<W, H>,
) {
    let centre = embedded_graphics::geometry::Point::new(120, 120);
    Arc::with_center(centre, 230, Angle::from_degrees(120.0), Angle::from_degrees(300.0))
        .draw_styled(&stroke(0x055D, 3), target)
        .unwrap();
    Arc::with_center(centre, 220, Angle::from_degrees(120.0), Angle::from_degrees(300.0))
        .draw_styled(&stroke(0xFFFF, 3), target)
        .unwrap();
    Arc::with_center(centre, 200, Angle::from_degrees(0.0), Angle::from_degrees(60.0))
        .draw_styled(&stroke(0xEA16, 3), target)
        .unwrap();
    for i in 0..26 {
        let (tick, text) = if i < 20 { (0xFFFF, 0xFFFF) } else { (0xEA16, 0xEA16) };
        Line::new(raster(context.outer[i * 12]), raster(context.p_point[i * 12]))
            .draw_styled(&stroke(tick, 2), target)
            .unwrap();
        if i % 2 == 0 {
            let number = format!("{}", i * 10);
            Text::with_alignment(
                &number,
                raster(context.l_point[i * 12]),
                MonoTextStyle::new(&FONT_8X13, color(text)),
                Alignment::Center,
            )
            .draw(target)
            .unwrap();
        }
    }
}

/// The erasing disc, drawn with the rasteriser itself.
fn clear_mask<D: DrawTarget<Color = Rgb565, Error = core::convert::Infallible>>(target: &mut D) {
    Circle::with_center(embedded_graphics::geometry::Point::new(120, 120), 162)
        .draw_styled(&PrimitiveStyleBuilder::new().fill_color(color(0x0026)).build(), target)
        .unwrap();
}

/// The dynamic artwork, drawn with the rasteriser itself.
fn dynamic_artwork<D: DrawTarget<Color = Rgb565, Error = core::convert::Infallible>>(
    target: &mut D,
    context: &DashboardContext<W, H>,
    angle: usize,
    line1: &str,
    line2: &str,
) {
    for i in 0..26 {
        let text = if i < 20 { 0xFFFF } else { 0xEA16 };
        if i % 2 == 0 {
            Text::with_alignment(
                TEXTS[i >> 1],
                raster(context.l_point[i * 12]),
                MonoTextStyle::new(&FONT_8X13, color(text)),
                Alignment::Center,
            )
            .draw(target)
            .unwrap();
        }
    }
    Line::new(raster(context.l_point[angle]), raster(context.n_point[angle]))
        .draw_styled(&stroke(0xF811, 4), target)
        .unwrap();
    Arc::with_center(
        embedded_graphics::geometry::Point::new(120, 120),
        (240 - 70) / 2,
        Angle::from_degrees(100.0),
        Angle::from_degrees(340.0),
    )
    .draw_styled(&stroke(0x055D, 3), target)
    .unwrap();
    let centre_style = MonoTextStyle::new(&FONT_10X20, color(0xFFFF));
    Text::with_alignment(line1, raster(context.centre), centre_style, Alignment::Center)
        .draw(target)
        .unwrap();
    let below = embedded_graphics::geometry::Point::new(context.centre.x, context.centre.y + 18);
    Text::with_alignment(line2, below, centre_style, Alignment::Center).draw(target).unwrap();
}

fn outside_clearing_area(x: usize, y: usize) -> bool {
    !(41..=200).contains(&x) || !(41..=200).contains(&y)
}

#[test]
fn static_artwork_is_bezel_ticks_and_numbers() {
    let context = context();
    let gauge = Speedo::new_speedo(TEXTS);
    let mut frame = PixelBuffer::<W, H>::from_bytes(patterned()).unwrap();
    gauge.draw_static(&mut frame, &context);
    let mut expected = patterned();
    let mut target = RawFrameBuf::<Rgb565, _>::new(expected.as_mut_slice(), W, H);
    static_artwork(&mut target, &context);
    assert_eq!(frame.as_bytes(), expected.as_slice());
    assert_ne!(frame.as_bytes(), patterned().as_slice());
}

#[test]
fn static_artwork_has_its_colours_in_place() {
    let context = context();
    let gauge = Speedo::new_speedo(TEXTS);
    let mut frame = PixelBuffer::<W, H>::new();
    gauge.draw_static(&mut frame, &context);
    let bytes = frame.into_bytes();
    // The outer ring, at 180 degrees; the inner ring beside it.
    assert_eq!(pixel(&bytes, 5, 120), 0x055D);
    assert_eq!(pixel(&bytes, 10, 120), 0xFFFF);
    // The redline arc, at 30 degrees.
    assert_eq!(pixel(&bytes, 120 + 86, 120 + 50), 0xEA16);
    // A white tick at 180 degrees, entry 60; a red tick at 0 degrees, entry 240.
    assert_eq!(pixel(&bytes, 15, 120), 0xFFFF);
    assert_eq!(pixel(&bytes, 225, 120), 0xEA16);
    // Nothing at the hub, nothing in the gap at the bottom.
    assert_eq!(pixel(&bytes, 120, 120), 0);
    assert_eq!(pixel(&bytes, 120, 233), 0);
}

#[test]
fn clear_mask_erases_a_disc_inside_the_clipping_rectangle() {
    let context = context();
    let gauge = Speedo::new_speedo(TEXTS);
    let mut frame = PixelBuffer::<W, H>::from_bytes(patterned()).unwrap();
    gauge.draw_clear_mask(&mut frame, &context);
    let mut expected = patterned();
    let mut target = RawFrameBuf::<Rgb565, _>::new(expected.as_mut_slice(), W, H);
    clear_mask(&mut target.clipped(&clearing_area()));
    assert_eq!(frame.as_bytes(), expected.as_slice());
    let bytes = frame.into_bytes();
    let before = patterned();
    assert_eq!(pixel(&bytes, 120, 120), 0x0026);
    assert_eq!(pixel(&bytes, 41, 120), 0x0026);
    assert_eq!(pixel(&bytes, 200, 120), 0x0026);
    assert_eq!(pixel(&bytes, 120, 41), 0x0026);
    assert_eq!(pixel(&bytes, 40, 120), pixel(&before, 40, 120));
    assert_eq!(pixel(&bytes, 201, 120), pixel(&before, 201, 120));
    assert_eq!(pixel(&bytes, 45, 45), pixel(&before, 45, 45));
    for y in 0..H {
        for x in 0..W {
            if outside_clearing_area(x, y) {
                assert_eq!(pixel(&bytes, x, y), pixel(&before, x, y));
            }
        }
    }
}

#[test]
fn dynamic_artwork_is_labels_needle_arc_and_lines() {
    let context = context();
    let mut gauge = Speedo::new_speedo(TEXTS);
    gauge.indicated_value = 100;
    gauge.set_line1(String::from("100"));
    gauge.set_line2(String::from("km/h"));
    let mut frame = PixelBuffer::<W, H>::from_bytes(patterned()).unwrap();
    gauge.draw_dynamic(&mut frame, &context);
    let mut expected = patterned();
    let mut target = RawFrameBuf::<Rgb565, _>::new(expected.as_mut_slice(), W, H);
    dynamic_artwork(&mut target.clipped(&clearing_area()), &context, 117, "100", "km/h");
    assert_eq!(frame.as_bytes(), expected.as_slice());
    let bytes = frame.into_bytes();
    let before = patterned();
    assert_ne!(bytes, before);
    for y in 0..H {
        for x in 0..W {
            if outside_clearing_area(x, y) {
                assert_eq!(pixel(&bytes, x, y), pixel(&before, x, y));
            }
        }
    }
}

#[test]
fn needle_follows_the_indicated_value() {
    let context = context();
    let mut gauge = Speedo::new_speedo(TEXTS);
    // 204 of 306 is two thirds of a turn: entry 240, straight to the right.
    gauge.indicated_value = 204;
    assert_eq!(gauge.needle_angle(), 240);
    let mut frame = PixelBuffer::<W, H>::new();
    gauge.draw_dynamic(&mut frame, &context);
    let bytes = frame.into_bytes();
    for x in 171..=199 {
        assert_eq!(pixel(&bytes, x, 120), 0xF811);
    }
    assert_eq!(pixel(&bytes, 120, 171), 0);
    // 280.5 of 306 is eleven twelfths: entry 330, straight down.
    gauge.indicated_value = 281;
    assert_eq!(gauge.needle_angle(), 330);
    let mut frame = PixelBuffer::<W, H>::new();
    gauge.draw_dynamic(&mut frame, &context);
    let bytes = frame.into_bytes();
    for y in 171..=199 {
        assert_eq!(pixel(&bytes, 120, y), 0xF811);
    }
    assert_eq!(pixel(&bytes, 180, 120), 0);
}

#[test]
fn render_cycle_without_a_buffer_is_skipped() {
    let context = context();
    let mut gauge = Speedo::new_speedo(TEXTS);
    gauge.set_value(77);
    gauge.set_line1(String::from("kept"));
    assert!(render_system(&mut gauge, &context, None).is_none());
    assert_eq!(gauge.value, 77);
    assert_eq!(gauge.indicated_value, 0);
    let gauge: &'static mut Speedo = Box::leak(Box::new(gauge));
    assert_eq!(gauge.get_line1().as_str(), "kept");
}

#[test]
fn render_cycle_moves_the_needle_and_redraws_the_dynamic_region() {
    let context = context();
    let mut gauge = Speedo::new_speedo(TEXTS);
    gauge.set_value(200);
    gauge.set_line1(String::from("first"));
    gauge.set_line2(String::from("second"));
    let taken = PixelBuffer::<W, H>::from_bytes(patterned()).unwrap();
    let (drawn, phase) = render_system(&mut gauge, &context, Some(taken)).unwrap();
    assert_eq!(phase, DrawBufferStatus::Flushing);
    assert_eq!(gauge.indicated_value, 20);
    assert_eq!(gauge.value, 200);
    let mut expected = patterned();
    let mut target = RawFrameBuf::<Rgb565, _>::new(expected.as_mut_slice(), W, H);
    clear_mask(&mut target.clipped(&clearing_area()));
    // 20 of 306 scaled to a turn is entry 23.
    dynamic_artwork(&mut target.clipped(&clearing_area()), &context, 23, "first", "second");
    assert_eq!(drawn.as_bytes(), expected.as_slice());
    // The next cycle draws the lines that this one has set.
    let (drawn, phase) = render_system(&mut gauge, &context, Some(drawn)).unwrap();
    assert_eq!(phase, DrawBufferStatus::Flushing);
    assert_eq!(gauge.indicated_value, 40);
    let mut target = RawFrameBuf::<Rgb565, _>::new(expected.as_mut_slice(), W, H);
    clear_mask(&mut target.clipped(&clearing_area()));
    dynamic_artwork(&mut target.clipped(&clearing_area()), &context, 47, "blabla", "123456");
    assert_eq!(drawn.as_bytes(), expected.as_slice());
    let gauge: &'static mut Speedo = Box::leak(Box::new(gauge));
    assert_eq!(gauge.get_line2().as_str(), "123456");
}

#[test]
fn render_cycle_leaves_the_static_artwork_outside_the_clipping_rectangle() {
    let context = context();
    let mut gauge = Speedo::new_speedo(TEXTS);
    let blank = PixelBuffer::<W, H>::new();
    let prepared = initialize_game(&gauge, &context, Some(blank)).unwrap();
    let before = prepared.as_bytes().to_vec();
    gauge.set_value(255);
    let mut frame = prepared;
    for _ in 0..15 {
        let (drawn, _) = render_system(&mut gauge, &context, Some(frame)).unwrap();
        frame = drawn;
    }
    assert_eq!(gauge.indicated_value, 255);
    let after = frame.into_bytes();
    assert_ne!(after, before);
    for y in 0..H {
        for x in 0..W {
            if outside_clearing_area(x, y) {
                assert_eq!(pixel(&after, x, y), pixel(&before, x, y));
            }
        }
    }
}

#[test]
fn first_frame_is_prepared_only_with_a_buffer() {
    let context = context();
    let gauge = Speedo::new_speedo(TEXTS);
    assert!(initialize_game(&gauge, &context, None).is_none());
    let prepared = initialize_game(&gauge, &context, Some(PixelBuffer::<W, H>::new())).unwrap();
    let mut expected = vec![0u8; W * H * 2];
    let mut target = RawFrameBuf::<Rgb565, _>::new(expected.as_mut_slice(), W, H);
    static_artwork(&mut target, &context);
    assert_eq!(prepared.into_bytes(), expected);
}
