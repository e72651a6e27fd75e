//! The frame buffer and the rasteriser calls that paint into it.
//!
//! A frame holds one 16-bit colour per pixel, row by row, the high byte of
//! each pixel first. Shapes are rasterised by `embedded-graphics` through the
//! raw frame buffer of `lcd-async`; what those calls leave in the bytes is
//! named, not restated, and every call is confined to a clipping rectangle.

use embedded_graphics::draw_target::DrawTargetExt;
use embedded_graphics::geometry::Angle;
use embedded_graphics::geometry::Dimensions;
use embedded_graphics::geometry::Point as RasterPoint;
use embedded_graphics::geometry::Size as RasterSize;
use embedded_graphics::mono_font::ascii::FONT_10X20;
use embedded_graphics::mono_font::ascii::FONT_8X13;
use embedded_graphics::mono_font::MonoTextStyle;
use embedded_graphics::pixelcolor::raw::RawU16;
use embedded_graphics::pixelcolor::Rgb565;
use embedded_graphics::primitives::Arc;
use embedded_graphics::primitives::Circle;
use embedded_graphics::primitives::Line;
use embedded_graphics::primitives::PrimitiveStyle;
use embedded_graphics::primitives::Rectangle as RasterRectangle;
use embedded_graphics::primitives::StyledDrawable;
use embedded_graphics::text::Alignment;
use embedded_graphics::text::Text;
use embedded_graphics::Drawable;
use lcd_async::raw_framebuf::RawFrameBuf;
use vstd::prelude::*;

use crate::geometry::Point;
use crate::geometry::Rectangle;

verus! {

/// Longest side of a frame, in pixels.
pub const MAX_SIDE: usize = 1024;

/// Furthest that a coordinate handed to the rasteriser may lie from the
/// origin.
///
/// The rasteriser works in 32-bit integers. The largest value that it forms
/// for a line is the squared length of the line times the square of twice
/// the stroke width: within `REACH` and `MAX_STROKE` that is at most
/// 2 * 2560 * 2560 * 64, which fits.
pub const REACH: i32 = 1280;

/// Widest stroke handed to the rasteriser.
pub const MAX_STROKE: u32 = 4;

/// Largest diameter handed to the rasteriser, and longest side of a
/// clipping rectangle.
pub const MAX_DIAMETER: u32 = 2560;

/// Most characters in one text handed to the rasteriser.
pub const MAX_TEXT: usize = 64;

/// The colour and width of an outline.
#[derive(Clone, Copy, Debug, PartialEq, Eq, Structural)]
pub struct StrokeStyle {
    /// Raw 16-bit colour, five bits of red, six of green, five of blue.
    pub color: u16,
    /// Width in pixels.
    pub width: u32,
}

/// The fixed-width fonts that the dashboard uses.
#[derive(Clone, Copy, Debug, PartialEq, Eq, Structural)]
pub enum Font {
    /// Cells of 8 by 13 pixels.
    Font8x13,
    /// Cells of 10 by 20 pixels.
    Font10x20,
}

/// The colour and font of a text.
#[derive(Clone, Copy, Debug, PartialEq, Eq, Structural)]
pub struct TextStyle {
    /// Raw 16-bit colour.
    pub color: u16,
    pub font: Font,
}

impl Rectangle {
    /// Whether the rasteriser can take the rectangle as a clipping area.
    pub open spec fn in_reach(self) -> bool {
        self.top_left.within(REACH as int) && self.width <= MAX_DIAMETER && self.height
            <= MAX_DIAMETER
    }
}

/// Whether byte `index` of a frame `width` pixels wide belongs to a pixel
/// inside `clip`.
pub open spec fn byte_in(clip: Rectangle, width: int, index: int) -> bool {
    width > 0 && clip.contains((index / 2) % width, (index / 2) / width)
}

/// Whether `after` is as long as `before` and differs from it at most in
/// the bytes of pixels inside `clip`.
pub open spec fn same_outside(before: Seq<u8>, after: Seq<u8>, width: int, clip: Rectangle) -> bool {
    &&& after.len() == before.len()
    &&& forall|i: int|
        0 <= i < before.len() && !byte_in(clip, width, i) ==> #[trigger] after[i] == before[i]
}

/// The bytes of a frame after an arc of the circle around `centre`, from
/// `start` degrees over `sweep` degrees, has been stroked into it inside `clip`.
pub uninterp spec fn arc_painted(
    bytes: Seq<u8>,
    width: int,
    height: int,
    clip: Rectangle,
    centre: Point,
    diameter: int,
    start: int,
    sweep: int,
    style: StrokeStyle,
) -> Seq<u8>;

/// The bytes of a frame after the line between `from` and `to` has been
/// stroked into it inside `clip`.
pub uninterp spec fn line_painted(
    bytes: Seq<u8>,
    width: int,
    height: int,
    clip: Rectangle,
    from: Point,
    to: Point,
    style: StrokeStyle,
) -> Seq<u8>;

/// The bytes of a frame after the disc around `centre` has been filled with
/// `color` inside `clip`.
pub uninterp spec fn disc_painted(
    bytes: Seq<u8>,
    width: int,
    height: int,
    clip: Rectangle,
    centre: Point,
    diameter: int,
    color: u16,
) -> Seq<u8>;

/// The bytes of a frame after `text` has been written into it inside `clip`,
/// each line centred on the column of `anchor`.
pub uninterp spec fn text_painted(
    bytes: Seq<u8>,
    width: int,
    height: int,
    clip: Rectangle,
    text: Seq<char>,
    anchor: Point,
    style: TextStyle,
) -> Seq<u8>;

/// The bounding box of the circle of the given diameter around `centre`.
pub open spec fn spec_circle_bounds(centre: Point, diameter: u32) -> Rectangle {
    let before: int = if diameter == 0 { 0 } else { (diameter - 1) / 2 };
    Rectangle {
        top_left: Point { x: (centre.x - before) as i32, y: (centre.y - before) as i32 },
        width: diameter,
        height: diameter,
    }
}

/// One thing that can be painted into a frame.
#[allow(inconsistent_fields)]
pub enum Shape {
    /// The outline of a circle around `centre`, from `start` degrees over
    /// `sweep` degrees.
    Arc { centre: Point, diameter: int, start: int, sweep: int, style: StrokeStyle },
    /// The line between two points.
    Line { from: Point, to: Point, style: StrokeStyle },
    /// The filled circle around `centre`.
    Disc { centre: Point, diameter: int, color: u16 },
    /// A text, each of its lines centred on the column of `anchor`.
    Text { text: Seq<char>, anchor: Point, style: TextStyle },
}

/// The bytes of a frame after `shape` has been painted into it inside `clip`.
pub open spec fn painted(
    bytes: Seq<u8>,
    width: int,
    height: int,
    clip: Rectangle,
    shape: Shape,
) -> Seq<u8> {
    match shape {
        Shape::Arc { centre, diameter, start, sweep, style } => arc_painted(
            bytes,
            width,
            height,
            clip,
            centre,
            diameter,
            start,
            sweep,
            style,
        ),
        Shape::Line { from, to, style } => line_painted(bytes, width, height, clip, from, to, style),
        Shape::Disc { centre, diameter, color } => disc_painted(
            bytes,
            width,
            height,
            clip,
            centre,
            diameter,
            color,
        ),
        Shape::Text { text, anchor, style } => text_painted(
            bytes,
            width,
            height,
            clip,
            text,
            anchor,
            style,
        ),
    }
}

/// The bytes of a frame after `shapes` have been painted into it inside
/// `clip`, the first of them first.
pub open spec fn painted_all(
    bytes: Seq<u8>,
    width: int,
    height: int,
    clip: Rectangle,
    shapes: Seq<Shape>,
) -> Seq<u8>
    decreases shapes.len(),
{
    if shapes.len() == 0 {
        bytes
    } else {
        painted(
            painted_all(bytes, width, height, clip, shapes.drop_last()),
            width,
            height,
            clip,
            shapes.last(),
        )
    }
}

/// Painting one more shape is painting it onto what the others left.
pub proof fn lemma_painted_push(
    bytes: Seq<u8>,
    width: int,
    height: int,
    clip: Rectangle,
    shapes: Seq<Shape>,
    shape: Shape,
)
    ensures
        painted_all(bytes, width, height, clip, shapes.push(shape)) == painted(
            painted_all(bytes, width, height, clip, shapes),
            width,
            height,
            clip,
            shape,
        ),
{
    assert(shapes.push(shape).drop_last() =~= shapes);
}

/// What two paintings in a row leave alone, both of them leave alone.
pub proof fn lemma_same_outside_twice(
    first: Seq<u8>,
    second: Seq<u8>,
    third: Seq<u8>,
    width: int,
    clip: Rectangle,
)
    requires
        same_outside(first, second, width, clip),
        same_outside(second, third, width, clip),
    ensures
        same_outside(first, third, width, clip),
{
}

/// One full frame of `W` by `H` pixels.
pub struct PixelBuffer<const W: usize, const H: usize> {
    bytes: Vec<u8>,
}

impl<const W: usize, const H: usize> View for PixelBuffer<W, H> {
    type V = Seq<u8>;

    closed spec fn view(&self) -> Seq<u8> {
        self.bytes@
    }
}

impl<const W: usize, const H: usize> PixelBuffer<W, H> {
    #[verifier::type_invariant]
    spec fn well_formed(&self) -> bool {
        self.bytes@.len() == W * H * 2
    }

    /// The area of the whole frame.
    pub open spec fn spec_bounds() -> Rectangle {
        Rectangle { top_left: Point { x: 0, y: 0 }, width: W as u32, height: H as u32 }
    }

    /// A frame of zero bytes.
    pub fn new() -> (buffer: Self)
        requires
            W * H * 2 <= usize::MAX,
        ensures
            buffer@ == Seq::new((W * H * 2) as nat, |i: int| 0u8),
    {
        assert(W * H <= usize::MAX) by (nonlinear_arith)
            requires
                W * H * 2 <= usize::MAX,
        ;
        let bytes: Vec<u8> = vec![0u8; W * H * 2];
        assert(bytes@ =~= Seq::new((W * H * 2) as nat, |i: int| 0u8));
        PixelBuffer { bytes }
    }

    /// Takes `bytes` as a frame, where they are exactly as many as a frame has.
    pub fn from_bytes(bytes: Vec<u8>) -> (buffer: Option<Self>)
        ensures
            buffer is Some <==> bytes@.len() == W * H * 2,
            buffer matches Some(b) ==> b@ == bytes@,
    {
        let len: usize = bytes.len();
        let Some(pixels) = W.checked_mul(H) else {
            assert(W * H * 2 > usize::MAX) by (nonlinear_arith)
                requires
                    W * H > usize::MAX,
            ;
            return None;
        };
        let Some(size) = pixels.checked_mul(2) else {
            return None;
        };
        if len != size {
            return None;
        }
        Some(PixelBuffer { bytes })
    }

    /// The bytes of the frame, as they go to the display.
    pub fn as_bytes(&self) -> (bytes: &[u8])
        ensures
            bytes@ == self@,
            bytes@.len() == W * H * 2,
    {
        proof {
            use_type_invariant(self);
        }
        self.bytes.as_slice()
    }

    /// Gives the bytes of the frame back.
    pub fn into_bytes(self) -> (bytes: Vec<u8>)
        ensures
            bytes@ == self@,
            bytes@.len() == W * H * 2,
    {
        proof {
            use_type_invariant(&self);
        }
        self.bytes
    }

    /// Strokes an arc of the circle around `centre`, inside `clip`.
    pub fn draw_arc(
        &mut self,
        clip: Rectangle,
        centre: Point,
        diameter: u32,
        start: u16,
        sweep: u16,
        style: StrokeStyle,
    )
        requires
            W <= MAX_SIDE,
            H <= MAX_SIDE,
            clip.in_reach(),
            centre.within(REACH as int),
            diameter <= MAX_DIAMETER,
            start <= 360,
            sweep <= 360,
            style.width <= MAX_STROKE,
        ensures
            final(self)@ == painted(
                old(self)@,
                W as int,
                H as int,
                clip,
                Shape::Arc {
                    centre,
                    diameter: diameter as int,
                    start: start as int,
                    sweep: sweep as int,
                    style,
                },
            ),
            same_outside(old(self)@, final(self)@, W as int, clip),
    {
        proof {
            use_type_invariant(&*self);
        }
        paint_arc(self, clip, centre, diameter, start, sweep, style);
    }

    /// Strokes the line between `from` and `to`, inside `clip`.
    pub fn draw_line(&mut self, clip: Rectangle, from: Point, to: Point, style: StrokeStyle)
        requires
            W <= MAX_SIDE,
            H <= MAX_SIDE,
            clip.in_reach(),
            from.within(REACH as int),
            to.within(REACH as int),
            style.width <= MAX_STROKE,
        ensures
            final(self)@ == painted(
                old(self)@,
                W as int,
                H as int,
                clip,
                Shape::Line { from, to, style },
            ),
            same_outside(old(self)@, final(self)@, W as int, clip),
    {
        proof {
            use_type_invariant(&*self);
        }
        paint_line(self, clip, from, to, style);
    }

    /// Fills the disc around `centre` with `color`, inside `clip`.
    pub fn fill_disc(&mut self, clip: Rectangle, centre: Point, diameter: u32, color: u16)
        requires
            W <= MAX_SIDE,
            H <= MAX_SIDE,
            clip.in_reach(),
            centre.within(REACH as int),
            diameter <= MAX_DIAMETER,
        ensures
            final(self)@ == painted(
                old(self)@,
                W as int,
                H as int,
                clip,
                Shape::Disc { centre, diameter: diameter as int, color },
            ),
            same_outside(old(self)@, final(self)@, W as int, clip),
    {
        proof {
            use_type_invariant(&*self);
        }
        paint_disc(self, clip, centre, diameter, color);
    }

    /// Writes `text`, each of its lines centred on the column of `anchor`,
    /// inside `clip`.
    pub fn draw_text(&mut self, clip: Rectangle, text: &str, anchor: Point, style: TextStyle)
        requires
            W <= MAX_SIDE,
            H <= MAX_SIDE,
            clip.in_reach(),
            anchor.within(REACH as int),
            text@.len() <= MAX_TEXT,
        ensures
            final(self)@ == painted(
                old(self)@,
                W as int,
                H as int,
                clip,
                Shape::Text { text: text@, anchor, style },
            ),
            same_outside(old(self)@, final(self)@, W as int, clip),
    {
        proof {
            use_type_invariant(&*self);
        }
        paint_text(self, clip, text, anchor, style);
    }
}

/// The bounding box of the circle around `centre`, from
/// `Circle::with_center(..).bounding_box()` of `embedded-graphics`.
///
/// Believed of the outside code: the box is as wide and as high as the
/// diameter, and its top left corner lies half of the diameter less one,
/// rounded down, before the centre.
#[verifier::external_body]
pub(crate) fn circle_bounds(centre: Point, diameter: u32) -> (bounds: Rectangle)
    requires
        centre.within(REACH as int),
        diameter <= MAX_DIAMETER,
    ensures
        bounds == spec_circle_bounds(centre, diameter),
{
    let area = Circle::with_center(RasterPoint::new(centre.x, centre.y), diameter).bounding_box();
    let top_left = Point { x: area.top_left.x, y: area.top_left.y };
    Rectangle { top_left, width: area.size.width, height: area.size.height }
}

/// Strokes an arc with `Arc::with_center(..).draw_styled(..)` of
/// `embedded-graphics`, on a `RawFrameBuf` of `lcd-async` over the bytes of
/// `frame`, clipped to `clip` by `clipped(..)`. The angles are taken in
/// whole degrees.
///
/// Believed of the outside code: the bytes afterwards are a function of the
/// arguments; they are as many as before; the clipped target forwards only
/// pixels inside `clip`, and the frame buffer writes only the two bytes of
/// a pixel that it is handed. The `requires` gives the frame buffer its
/// full size, which it checks, and keeps the coordinates and the stroke
/// small enough for the rasteriser's 32-bit arithmetic.
#[verifier::external_body]
fn paint_arc<const W: usize, const H: usize>(
    frame: &mut PixelBuffer<W, H>,
    clip: Rectangle,
    centre: Point,
    diameter: u32,
    start: u16,
    sweep: u16,
    style: StrokeStyle,
)
    requires
        W <= MAX_SIDE,
        H <= MAX_SIDE,
        old(frame)@.len() == W * H * 2,
        clip.in_reach(),
        centre.within(REACH as int),
        diameter <= MAX_DIAMETER,
        start <= 360,
        sweep <= 360,
        style.width <= MAX_STROKE,
    ensures
        final(frame)@ == arc_painted(
            old(frame)@,
            W as int,
            H as int,
            clip,
            centre,
            diameter as int,
            start as int,
            sweep as int,
            style,
        ),
        same_outside(old(frame)@, final(frame)@, W as int, clip),
{
    let mut target = RawFrameBuf::<Rgb565, _>::new(frame.bytes.as_mut_slice(), W, H);
    let corner = RasterPoint::new(clip.top_left.x, clip.top_left.y);
    let area = RasterRectangle::new(corner, RasterSize::new(clip.width, clip.height));
    let stroke = PrimitiveStyle::with_stroke(Rgb565::from(RawU16::new(style.color)), style.width);
    let from = Angle::from_degrees(start.into());
    let arc = Arc::with_center(RasterPoint::new(centre.x, centre.y), diameter, from, Angle::from_degrees(sweep.into()));
    let _ = arc.draw_styled(&stroke, &mut target.clipped(&area));
}

/// Strokes a line with `Line::new(..).draw_styled(..)` of
/// `embedded-graphics`, on a `RawFrameBuf` of `lcd-async` over the bytes of
/// `frame`, clipped to `clip` by `clipped(..)`.
///
/// Believed of the outside code: the bytes afterwards are a function of the
/// arguments; they are as many as before; only bytes of pixels inside
/// `clip` differ. The `requires` gives the frame buffer its full size and
/// keeps the square of the line's length, times the square of twice the
/// stroke width, within 32 bits.
#[verifier::external_body]
fn paint_line<const W: usize, const H: usize>(
    frame: &mut PixelBuffer<W, H>,
    clip: Rectangle,
    from: Point,
    to: Point,
    style: StrokeStyle,
)
    requires
        W <= MAX_SIDE,
        H <= MAX_SIDE,
        old(frame)@.len() == W * H * 2,
        clip.in_reach(),
        from.within(REACH as int),
        to.within(REACH as int),
        style.width <= MAX_STROKE,
    ensures
        final(frame)@ == line_painted(
            old(frame)@,
            W as int,
            H as int,
            clip,
            from,
            to,
            style,
        ),
        same_outside(old(frame)@, final(frame)@, W as int, clip),
{
    let mut target = RawFrameBuf::<Rgb565, _>::new(frame.bytes.as_mut_slice(), W, H);
    let corner = RasterPoint::new(clip.top_left.x, clip.top_left.y);
    let area = RasterRectangle::new(corner, RasterSize::new(clip.width, clip.height));
    let stroke = PrimitiveStyle::with_stroke(Rgb565::from(RawU16::new(style.color)), style.width);
    let line = Line::new(RasterPoint::new(from.x, from.y), RasterPoint::new(to.x, to.y));
    let _ = line.draw_styled(&stroke, &mut target.clipped(&area));
}

/// Fills a disc with `Circle::with_center(..).draw_styled(..)` of
/// `embedded-graphics`, in a style that fills and does not stroke, on a
/// `RawFrameBuf` of `lcd-async` over the bytes of `frame`, clipped to
/// `clip` by `clipped(..)`.
///
/// Believed of the outside code: the bytes afterwards are a function of the
/// arguments; they are as many as before; only bytes of pixels inside
/// `clip` differ. The `requires` gives the frame buffer its full size and
/// keeps the coordinates within the rasteriser's 32-bit arithmetic.
#[verifier::external_body]
fn paint_disc<const W: usize, const H: usize>(
    frame: &mut PixelBuffer<W, H>,
    clip: Rectangle,
    centre: Point,
    diameter: u32,
    color: u16,
)
    requires
        W <= MAX_SIDE,
        H <= MAX_SIDE,
        old(frame)@.len() == W * H * 2,
        clip.in_reach(),
        centre.within(REACH as int),
        diameter <= MAX_DIAMETER,
    ensures
        final(frame)@ == disc_painted(
            old(frame)@,
            W as int,
            H as int,
            clip,
            centre,
            diameter as int,
            color,
        ),
        same_outside(old(frame)@, final(frame)@, W as int, clip),
{
    let mut target = RawFrameBuf::<Rgb565, _>::new(frame.bytes.as_mut_slice(), W, H);
    let corner = RasterPoint::new(clip.top_left.x, clip.top_left.y);
    let area = RasterRectangle::new(corner, RasterSize::new(clip.width, clip.height));
    let fill = PrimitiveStyle::with_fill(Rgb565::from(RawU16::new(color)));
    let disc = Circle::with_center(RasterPoint::new(centre.x, centre.y), diameter);
    let _ = disc.draw_styled(&fill, &mut target.clipped(&area));
}

/// Writes a text with `Text::with_alignment(.., Alignment::Center).draw(..)`
/// of `embedded-graphics`, in its font `FONT_8X13` or `FONT_10X20`, on a
/// `RawFrameBuf` of `lcd-async` over the bytes of `frame`, clipped to
/// `clip` by `clipped(..)`.
///
/// Believed of the outside code: the bytes afterwards are a function of the
/// arguments; they are as many as before; only bytes of pixels inside
/// `clip` differ. The `requires` gives the frame buffer its full size and
/// keeps the text short enough for its width to be measured in 32 bits.
#[verifier::external_body]
fn paint_text<const W: usize, const H: usize>(
    frame: &mut PixelBuffer<W, H>,
    clip: Rectangle,
    text: &str,
    anchor: Point,
    style: TextStyle,
)
    requires
        W <= MAX_SIDE,
        H <= MAX_SIDE,
        old(frame)@.len() == W * H * 2,
        clip.in_reach(),
        anchor.within(REACH as int),
        text@.len() <= MAX_TEXT,
    ensures
        final(frame)@ == text_painted(
            old(frame)@,
            W as int,
            H as int,
            clip,
            text@,
            anchor,
            style,
        ),
        same_outside(old(frame)@, final(frame)@, W as int, clip),
{
    let mut target = RawFrameBuf::<Rgb565, _>::new(frame.bytes.as_mut_slice(), W, H);
    let corner = RasterPoint::new(clip.top_left.x, clip.top_left.y);
    let area = RasterRectangle::new(corner, RasterSize::new(clip.width, clip.height));
    let font = match style.font {
        Font::Font8x13 => &FONT_8X13,
        Font::Font10x20 => &FONT_10X20,
    };
    let look = MonoTextStyle::new(font, Rgb565::from(RawU16::new(style.color)));
    let place = RasterPoint::new(anchor.x, anchor.y);
    let _ = Text::with_alignment(text, place, look, Alignment::Center).draw(&mut target.clipped(&area));
}

} // verus!
