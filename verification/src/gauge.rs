//! The radial gauge: a target value, the rate-limited value shown by the
//! needle, and two short text lines.

use vstd::prelude::*;

use crate::canvas::circle_bounds;
use crate::canvas::lemma_painted_push;
use crate::canvas::lemma_same_outside_twice;
use crate::canvas::painted_all;
use crate::canvas::same_outside;
use crate::canvas::spec_circle_bounds;
use crate::canvas::Font;
use crate::canvas::PixelBuffer;
use crate::canvas::Shape;
use crate::canvas::StrokeStyle;
use crate::canvas::TextStyle;
use crate::canvas::MAX_DIAMETER;
use crate::canvas::MAX_SIDE;
use crate::canvas::MAX_STROKE;
use crate::canvas::MAX_TEXT;
use crate::canvas::REACH;
use crate::geometry::is_ring;
use crate::geometry::magnitude;
use crate::geometry::Point;
use crate::geometry::Rectangle;
use crate::geometry::Ring;
use crate::geometry::DEGREES;

verus! {

/// How far inside the edge of the gauge the outer ring lies.
pub const I_OUTER_OFFSET: u32 = 10;

/// How far inside the edge the inner ends of the tick marks lie.
pub const I_P_OFFSET: u32 = 20;

/// How far inside the edge the labels and the foot of the needle lie.
pub const I_L_OFFSET: u32 = 40;

/// How far inside the edge the tip of the needle lies.
pub const I_N_OFFSET: u32 = 70;

/// The table entry of the direction in which the gauge starts.
pub const START_ANGLE: usize = 120;

/// Number of tick marks.
pub const TICKS: usize = 26;

/// Number of labels: one beside every second tick mark.
pub const LABELS: usize = 13;

/// Table entries between one tick mark and the next.
pub const TICK_STEP: usize = 12;

/// Largest change of the indicated value in one update.
pub const MAX_CHANGE: i32 = 20;

/// The value above which the simulated feed starts over.
pub const SIMULATED_TOP: i32 = 200;

/// The step of the simulated feed.
pub const SIMULATED_STEP: i32 = 3;

/// Raw colour of the background.
pub const BACK_COLOR: u16 = 0x0026;

/// Raw colour of the outer ring.
pub const GAUGE_COLOR: u16 = 0x055D;

/// Raw colour of the redline zone.
pub const PURPLE: u16 = 0xEA16;

/// Raw colour of the needle.
pub const NEEDLE_COLOR: u16 = 0xF811;

/// Raw colour of the inner ring, the ticks and the texts.
pub const WHITE: u16 = 0xFFFF;

/// Where entry `i` of a ring table lies on the display: the ring's
/// displacement at `i + 120` degrees, taken from `centre`.
pub open spec fn placed(ring: Seq<Point>, centre: Point, i: int) -> Point {
    let at = ring[(i + START_ANGLE) % (DEGREES as int)];
    Point { x: (at.x + centre.x) as i32, y: (at.y + centre.y) as i32 }
}

/// A whole ring table placed around `centre`.
pub open spec fn placed_ring(ring: Seq<Point>, centre: Point) -> Seq<Point> {
    Seq::new(DEGREES as nat, |i: int| placed(ring, centre, i))
}

/// Whether every point of `table` can be handed to the rasteriser.
pub open spec fn table_in_reach(table: Seq<Point>) -> bool {
    table.len() == DEGREES && forall|i: int|
        0 <= i < DEGREES ==> (#[trigger] table[i]).within(REACH as int)
}

/// Places one ring around `centre`.
fn place_ring(ring: &Ring, centre: Point) -> (table: Vec<Point>)
    requires
        0 <= centre.x <= MAX_SIDE / 2,
        0 <= centre.y <= MAX_SIDE / 2,
        magnitude(ring.spec_radius()) <= MAX_SIDE / 2,
    ensures
        table@ == placed_ring(ring@, centre),
        table_in_reach(table@),
{
    let mut table: Vec<Point> = Vec::new();
    let mut i: usize = 0;
    while i < DEGREES
        invariant
            i <= DEGREES,
            table@.len() == i,
            0 <= centre.x <= MAX_SIDE / 2,
            0 <= centre.y <= MAX_SIDE / 2,
            magnitude(ring.spec_radius()) <= MAX_SIDE / 2,
            forall|k: int| 0 <= k < i ==> #[trigger] table@[k] == placed(ring@, centre, k),
            forall|k: int| 0 <= k < i ==> (#[trigger] table@[k]).within(REACH as int),
        decreases DEGREES - i,
    {
        let at: Point = ring.offset((i + START_ANGLE) % DEGREES);
        table.push(Point { x: at.x + centre.x, y: at.y + centre.y });
        i += 1;
    }
    assert(table@ =~= placed_ring(ring@, centre));
    table
}

/// The geometry and the styles of the dashboard, fixed once it is built.
pub struct DashboardContext<const GAUGE_WIDTH: usize, const GAUGE_HEIGHT: usize> {
    /// Where the outer ends of the tick marks lie, by table entry.
    pub outer: Vec<Point>,
    /// Where the inner ends of the tick marks lie.
    pub p_point: Vec<Point>,
    /// Where the labels and the foot of the needle lie.
    pub l_point: Vec<Point>,
    /// Where the tip of the needle lies.
    pub n_point: Vec<Point>,
    pub centre: Point,
    pub back_color: u16,
    pub gauge_color: u16,
    pub purple: u16,
    pub needle_color: u16,
    pub outer_style: StrokeStyle,
    pub inner_style: StrokeStyle,
    pub redline_style: StrokeStyle,
    pub tick_style: StrokeStyle,
    pub red_tick_style: StrokeStyle,
    pub needle_style: StrokeStyle,
    pub text_style: TextStyle,
    pub red_text_style: TextStyle,
    pub centre_text_style: TextStyle,
    /// The only area that is painted again after the static artwork.
    pub clearing_circle_bounds: Rectangle,
}

impl<const GAUGE_WIDTH: usize, const GAUGE_HEIGHT: usize> DashboardContext<
    GAUGE_WIDTH,
    GAUGE_HEIGHT,
> {
    /// Whether a dashboard of this size can be built: wide enough for the
    /// label ring, and no side longer than a frame may be.
    pub open spec fn configured() -> bool {
        2 * I_L_OFFSET <= GAUGE_WIDTH <= MAX_SIDE && GAUGE_HEIGHT <= MAX_SIDE
    }

    /// The centre of the bounding square.
    pub open spec fn spec_centre() -> Point {
        Point { x: (GAUGE_WIDTH / 2) as i32, y: (GAUGE_HEIGHT / 2) as i32 }
    }

    /// The radius of the ring that lies `offset` inside the edge.
    pub open spec fn ring_radius(offset: u32) -> int {
        GAUGE_WIDTH / 2 - offset
    }

    /// Whether the four rings are those of a dashboard of this size.
    pub open spec fn rings_fit(outer: &Ring, primary: &Ring, label: &Ring, needle: &Ring) -> bool {
        &&& outer.spec_radius() == Self::ring_radius(I_OUTER_OFFSET)
        &&& primary.spec_radius() == Self::ring_radius(I_P_OFFSET)
        &&& label.spec_radius() == Self::ring_radius(I_L_OFFSET)
        &&& needle.spec_radius() == Self::ring_radius(I_N_OFFSET)
    }

    /// Whether the context is the one that is built from the four ring tables.
    pub open spec fn built_from(
        &self,
        outer: Seq<Point>,
        primary: Seq<Point>,
        label: Seq<Point>,
        needle: Seq<Point>,
    ) -> bool {
        &&& self.outer@ == placed_ring(outer, Self::spec_centre())
        &&& self.p_point@ == placed_ring(primary, Self::spec_centre())
        &&& self.l_point@ == placed_ring(label, Self::spec_centre())
        &&& self.n_point@ == placed_ring(needle, Self::spec_centre())
        &&& self.centre == Self::spec_centre()
        &&& self.back_color == BACK_COLOR
        &&& self.gauge_color == GAUGE_COLOR
        &&& self.purple == PURPLE
        &&& self.needle_color == NEEDLE_COLOR
        &&& self.outer_style == (StrokeStyle { color: GAUGE_COLOR, width: 3 })
        &&& self.inner_style == (StrokeStyle { color: WHITE, width: 3 })
        &&& self.redline_style == (StrokeStyle { color: PURPLE, width: 3 })
        &&& self.tick_style == (StrokeStyle { color: WHITE, width: 2 })
        &&& self.red_tick_style == (StrokeStyle { color: PURPLE, width: 2 })
        &&& self.needle_style == (StrokeStyle { color: NEEDLE_COLOR, width: 4 })
        &&& self.text_style == (TextStyle { color: WHITE, font: Font::Font8x13 })
        &&& self.red_text_style == (TextStyle { color: PURPLE, font: Font::Font8x13 })
        &&& self.centre_text_style == (TextStyle { color: WHITE, font: Font::Font10x20 })
        &&& self.clearing_circle_bounds == spec_circle_bounds(
            Self::spec_centre(),
            (2 * Self::ring_radius(I_L_OFFSET)) as u32,
        )
    }

    /// Whether the gauge can draw with the context: the size is one that
    /// can be built, every table has an entry for each degree, and every
    /// point, area and stroke can be handed to the rasteriser.
    pub open spec fn wf(&self) -> bool {
        &&& Self::configured()
        &&& table_in_reach(self.outer@)
        &&& table_in_reach(self.p_point@)
        &&& table_in_reach(self.l_point@)
        &&& table_in_reach(self.n_point@)
        &&& self.centre.within(REACH - 18)
        &&& self.clearing_circle_bounds.in_reach()
        &&& self.outer_style.width <= MAX_STROKE
        &&& self.inner_style.width <= MAX_STROKE
        &&& self.redline_style.width <= MAX_STROKE
        &&& self.tick_style.width <= MAX_STROKE
        &&& self.red_tick_style.width <= MAX_STROKE
        &&& self.needle_style.width <= MAX_STROKE
    }

    /// Builds the context from the displacements of its four rings.
    ///
    /// Entry `i` of each table is the point at `i + 120` degrees, so that
    /// entry 0 is where the gauge starts. Nothing is built where the size
    /// cannot be, or where a ring was made for another radius than its own.
    pub fn new(outer: &Ring, primary: &Ring, label: &Ring, needle: &Ring) -> (context: Option<Self>)
        ensures
            context is Some <==> Self::configured() && Self::rings_fit(
                outer,
                primary,
                label,
                needle,
            ),
            context matches Some(c) ==> c.built_from(outer@, primary@, label@, needle@) && c.wf(),
    {
        if GAUGE_WIDTH < 80 || GAUGE_WIDTH > MAX_SIDE || GAUGE_HEIGHT > MAX_SIDE {
            return None;
        }
        let r: i32 = (GAUGE_WIDTH / 2) as i32;
        if outer.radius() != r - 10 || primary.radius() != r - 20 || label.radius() != r - 40
            || needle.radius() != r - 70 {
            return None;
        }
        let centre = Point { x: r, y: (GAUGE_HEIGHT / 2) as i32 };
        let clearing_circle_bounds = circle_bounds(centre, (2 * (r - 40)) as u32);
        Some(
            DashboardContext {
                outer: place_ring(outer, centre),
                p_point: place_ring(primary, centre),
                l_point: place_ring(label, centre),
                n_point: place_ring(needle, centre),
                centre,
                back_color: BACK_COLOR,
                gauge_color: GAUGE_COLOR,
                purple: PURPLE,
                needle_color: NEEDLE_COLOR,
                outer_style: StrokeStyle { color: GAUGE_COLOR, width: 3 },
                inner_style: StrokeStyle { color: WHITE, width: 3 },
                redline_style: StrokeStyle { color: PURPLE, width: 3 },
                tick_style: StrokeStyle { color: WHITE, width: 2 },
                red_tick_style: StrokeStyle { color: PURPLE, width: 2 },
                needle_style: StrokeStyle { color: NEEDLE_COLOR, width: 4 },
                text_style: TextStyle { color: WHITE, font: Font::Font8x13 },
                red_text_style: TextStyle { color: PURPLE, font: Font::Font8x13 },
                centre_text_style: TextStyle { color: WHITE, font: Font::Font10x20 },
                clearing_circle_bounds,
            },
        )
    }

    /// Building twice from the same rings gives the same tables, the same
    /// centre and the same clipping rectangle.
    pub proof fn lemma_construction_is_deterministic(
        first: &Self,
        second: &Self,
        outer: Seq<Point>,
        primary: Seq<Point>,
        label: Seq<Point>,
        needle: Seq<Point>,
    )
        requires
            first.built_from(outer, primary, label, needle),
            second.built_from(outer, primary, label, needle),
        ensures
            first.outer@ == second.outer@,
            first.p_point@ == second.p_point@,
            first.l_point@ == second.l_point@,
            first.n_point@ == second.n_point@,
            first.centre == second.centre,
            first.clearing_circle_bounds == second.clearing_circle_bounds,
    {
    }

    /// Every entry of a placed ring lies no further from the centre, along
    /// either axis, than the radius of the ring.
    pub proof fn lemma_entry_within_radius(ring: Seq<Point>, radius: int, i: int)
        requires
            Self::configured(),
            is_ring(radius, ring),
            magnitude(radius) <= MAX_SIDE / 2,
            0 <= i < DEGREES,
        ensures
            magnitude(placed(ring, Self::spec_centre(), i).x - Self::spec_centre().x) <= magnitude(
                radius,
            ),
            magnitude(placed(ring, Self::spec_centre(), i).y - Self::spec_centre().y) <= magnitude(
                radius,
            ),
    {
        let at = ring[(i + START_ANGLE) % (DEGREES as int)];
        assert(at.within(magnitude(radius)));
    }

    /// Entry `i` of every table of a built context is the ring's
    /// displacement at `i + 120` degrees, taken from the centre of the
    /// bounding square.
    pub proof fn lemma_entry_is_rotated(
        &self,
        outer: Seq<Point>,
        primary: Seq<Point>,
        label: Seq<Point>,
        needle: Seq<Point>,
        i: int,
    )
        requires
            self.built_from(outer, primary, label, needle),
            0 <= i < DEGREES,
        ensures
            self.outer@[i] == placed(outer, Self::spec_centre(), i),
            self.p_point@[i] == placed(primary, Self::spec_centre(), i),
            self.l_point@[i] == placed(label, Self::spec_centre(), i),
            self.n_point@[i] == placed(needle, Self::spec_centre(), i),
    {
    }
}

/// The indicated value after one update towards `target`.
pub open spec fn step_toward(indicated: int, target: int) -> int {
    if indicated < target {
        if indicated + MAX_CHANGE < target {
            indicated + MAX_CHANGE
        } else {
            target
        }
    } else if indicated > target {
        if indicated - MAX_CHANGE > target {
            indicated - MAX_CHANGE
        } else {
            target
        }
    } else {
        indicated
    }
}

/// The indicated value after `n` updates towards a target that stays put.
pub open spec fn after_updates(indicated: int, target: int, n: nat) -> int
    decreases n,
{
    if n == 0 {
        indicated
    } else {
        step_toward(after_updates(indicated, target, (n - 1) as nat), target)
    }
}

/// The number of updates that bring the indicated value to the target: their
/// distance divided by the largest step, rounded up.
pub open spec fn updates_needed(indicated: int, target: int) -> nat {
    ((magnitude(target - indicated) + MAX_CHANGE - 1) / (MAX_CHANGE as int)) as nat
}

/// The table entry at which the needle points: the value scaled into the
/// sweep of the gauge, in whole degrees, within one turn.
pub open spec fn value_to_angle(indicated: int, scaled_max: int) -> int {
    (indicated * 360 / scaled_max) % 360
}

/// One update moves the indicated value by no more than the largest step,
/// never past the target, and not at all once it is there.
pub proof fn lemma_step_is_bounded(indicated: int, target: int)
    ensures
        magnitude(step_toward(indicated, target) - indicated) <= MAX_CHANGE,
        magnitude(target - step_toward(indicated, target)) <= magnitude(target - indicated),
        indicated <= target ==> indicated <= step_toward(indicated, target) <= target,
        indicated >= target ==> indicated >= step_toward(indicated, target) >= target,
        step_toward(target, target) == target,
{
}

/// After `n` updates the indicated value has come `n` steps closer, or has
/// arrived.
pub proof fn lemma_after_updates(indicated: int, target: int, n: nat)
    ensures
        indicated <= target ==> after_updates(indicated, target, n) == if indicated + n
            * MAX_CHANGE < target {
            indicated + n * MAX_CHANGE
        } else {
            target
        },
        indicated >= target ==> after_updates(indicated, target, n) == if indicated - n
            * MAX_CHANGE > target {
            indicated - n * MAX_CHANGE
        } else {
            target
        },
    decreases n,
{
    if n > 0 {
        lemma_after_updates(indicated, target, (n - 1) as nat);
        assert(n * MAX_CHANGE == (n - 1) * MAX_CHANGE + MAX_CHANGE) by (nonlinear_arith);
    }
}

/// While the target stays put, the indicated value is at the target after
/// `n` updates exactly when `n` is at least the number needed, and from
/// then on it stays there.
pub proof fn lemma_converges(indicated: int, target: int, n: nat)
    ensures
        after_updates(indicated, target, n) == target <==> n >= updates_needed(indicated, target),
        n >= updates_needed(indicated, target) ==> after_updates(
            indicated,
            target,
            n + 1,
        ) == target,
{
    let distance = magnitude(target - indicated);
    let needed = updates_needed(indicated, target);
    lemma_after_updates(indicated, target, n);
    lemma_after_updates(indicated, target, n + 1);
    assert(needed * MAX_CHANGE >= distance && (needed - 1) * MAX_CHANGE < distance) by {
        vstd::arithmetic::div_mod::lemma_fundamental_div_mod(
            distance + MAX_CHANGE - 1,
            MAX_CHANGE as int,
        );
    }
    if n >= needed {
        assert(n * MAX_CHANGE >= needed * MAX_CHANGE) by (nonlinear_arith)
            requires
                n >= needed,
        ;
        assert((n + 1) * MAX_CHANGE >= n * MAX_CHANGE) by (nonlinear_arith);
    } else {
        assert(n * MAX_CHANGE <= (needed - 1) * MAX_CHANGE) by (nonlinear_arith)
            requires
                n <= needed - 1,
        ;
    }
}

/// The needle always points at an entry of the tables.
pub proof fn lemma_angle_in_range(indicated: int, scaled_max: int)
    ensures
        0 <= value_to_angle(indicated, scaled_max) < 360,
{
}

/// Values that lie the scaled maximum apart point the needle at the same
/// entry.
pub proof fn lemma_angle_is_periodic(indicated: int, scaled_max: int)
    requires
        scaled_max > 0,
    ensures
        value_to_angle(indicated + scaled_max, scaled_max) == value_to_angle(
            indicated,
            scaled_max,
        ),
{
    let turns = indicated * 360 / scaled_max;
    let rest = indicated * 360 % scaled_max;
    vstd::arithmetic::div_mod::lemma_fundamental_div_mod(indicated * 360, scaled_max);
    assert((indicated + scaled_max) * 360 == (turns + 360) * scaled_max + rest)
        by (nonlinear_arith)
        requires
            indicated * 360 == scaled_max * turns + rest,
    ;
    vstd::arithmetic::div_mod::lemma_fundamental_div_mod_converse(
        (indicated + scaled_max) * 360,
        scaled_max,
        turns + 360,
        rest,
    );
    vstd::arithmetic::div_mod::lemma_fundamental_div_mod(turns, 360);
    vstd::arithmetic::div_mod::lemma_fundamental_div_mod_converse(
        turns + 360,
        360,
        turns / 360 + 1,
        turns % 360,
    );
}

/// The digit `d` as a character.
pub open spec fn digit(d: int) -> char {
    if d == 0 {
        '0'
    } else if d == 1 {
        '1'
    } else if d == 2 {
        '2'
    } else if d == 3 {
        '3'
    } else if d == 4 {
        '4'
    } else if d == 5 {
        '5'
    } else if d == 6 {
        '6'
    } else if d == 7 {
        '7'
    } else if d == 8 {
        '8'
    } else {
        '9'
    }
}

/// The number `n` written in decimal.
pub open spec fn decimal(n: nat) -> Seq<char>
    decreases n,
{
    if n < 10 {
        seq![digit(n as int)]
    } else {
        decimal(n / 10).push(digit((n % 10) as int))
    }
}

/// The number beside every second tick mark, written in decimal: twenty
/// times `k`.
fn tick_label(k: usize) -> (label: &'static str)
    requires
        k < LABELS,
    ensures
        label@ == decimal((20 * k) as nat),
        label@.len() <= 3,
{
    proof {
        reveal_with_fuel(decimal, 3);
        reveal_strlit("0");
        reveal_strlit("20");
        reveal_strlit("40");
        reveal_strlit("60");
        reveal_strlit("80");
        reveal_strlit("100");
        reveal_strlit("120");
        reveal_strlit("140");
        reveal_strlit("160");
        reveal_strlit("180");
        reveal_strlit("200");
        reveal_strlit("220");
        reveal_strlit("240");
    }
    let label = if k == 0 {
        "0"
    } else if k == 1 {
        "20"
    } else if k == 2 {
        "40"
    } else if k == 3 {
        "60"
    } else if k == 4 {
        "80"
    } else if k == 5 {
        "100"
    } else if k == 6 {
        "120"
    } else if k == 7 {
        "140"
    } else if k == 8 {
        "160"
    } else if k == 9 {
        "180"
    } else if k == 10 {
        "200"
    } else if k == 11 {
        "220"
    } else {
        "240"
    };
    assert(label@ =~= decimal((20 * k) as nat));
    label
}

/// The radial gauge.
pub struct Gauge<
    'a,
    const W: usize,
    const H: usize,
    const BUFFER: usize,
    const CLEAR_RADIUS: usize,
    const MAX_VALUE: usize,
> {
    /// The target value, driven from outside.
    pub value: i32,
    /// The value that the needle shows.
    pub indicated_value: i32,
    /// The labels that are drawn anew with the needle.
    pub texts: [&'a str; 13],
    line1: String,
    line2: String,
    scaled_max: u64,
}

/// What a gauge holds, as mathematical values.
pub struct GaugeView<'a> {
    pub value: int,
    pub indicated_value: int,
    pub texts: Seq<&'a str>,
    pub line1: Seq<char>,
    pub line2: Seq<char>,
    pub scaled_max: int,
}

impl<
    'a,
    const W: usize,
    const H: usize,
    const BUFFER: usize,
    const CLEAR_RADIUS: usize,
    const MAX_VALUE: usize,
> View for Gauge<'a, W, H, BUFFER, CLEAR_RADIUS, MAX_VALUE> {
    type V = GaugeView<'a>;

    closed spec fn view(&self) -> GaugeView<'a> {
        GaugeView {
            value: self.value as int,
            indicated_value: self.indicated_value as int,
            texts: self.texts@,
            line1: self.line1@,
            line2: self.line2@,
            scaled_max: self.scaled_max as int,
        }
    }
}

impl<
    'a,
    const W: usize,
    const H: usize,
    const BUFFER: usize,
    const CLEAR_RADIUS: usize,
    const MAX_VALUE: usize,
> Gauge<'a, W, H, BUFFER, CLEAR_RADIUS, MAX_VALUE> {
    /// The largest value scaled from the sweep of the gauge, 300 degrees,
    /// to a full turn.
    pub open spec fn spec_scaled_max() -> int {
        MAX_VALUE * 360 / 300
    }

    /// Whether the gauge can be drawn: the scaled maximum is positive and
    /// no text is longer than the rasteriser takes.
    pub open spec fn drawable(gauge: GaugeView<'a>) -> bool {
        &&& gauge.scaled_max > 0
        &&& gauge.texts.len() == LABELS
        &&& forall|k: int| 0 <= k < LABELS ==> (#[trigger] gauge.texts[k])@.len() <= MAX_TEXT
        &&& gauge.line1.len() <= MAX_TEXT
        &&& gauge.line2.len() <= MAX_TEXT
    }

    /// The centre of the frame.
    pub open spec fn spec_centre() -> Point {
        Point { x: (W / 2) as i32, y: (H / 2) as i32 }
    }

    /// A gauge at rest at zero, with empty text lines.
    pub fn new_speedo(texts: [&'a str; 13]) -> (gauge: Self)
        requires
            MAX_VALUE * 360 <= usize::MAX,
        ensures
            gauge@ == (GaugeView {
                value: 0,
                indicated_value: 0,
                texts: texts@,
                line1: Seq::<char>::empty(),
                line2: Seq::<char>::empty(),
                scaled_max: Self::spec_scaled_max(),
            }),
    {
        let max_value_scaled: u64 = (MAX_VALUE * 360 / 300) as u64;
        Gauge {
            value: 0,
            indicated_value: 0,
            texts,
            line1: String::new(),
            line2: String::new(),
            scaled_max: max_value_scaled,
        }
    }

    pub fn set_line1(&mut self, value: String)
        ensures
            final(self)@ == (GaugeView { line1: value@, ..old(self)@ }),
    {
        self.line1 = value;
    }

    pub fn get_line1(&'a mut self) -> (line: &'a mut String)
        ensures
            line@ == old(self)@.line1,
            final(self)@ == (GaugeView { line1: final(line)@, ..old(self)@ }),
    {
        &mut self.line1
    }

    pub fn set_line2(&mut self, value: String)
        ensures
            final(self)@ == (GaugeView { line2: value@, ..old(self)@ }),
    {
        self.line2 = value;
    }

    pub fn get_line2(&'a mut self) -> (line: &'a mut String)
        ensures
            line@ == old(self)@.line2,
            final(self)@ == (GaugeView { line2: final(line)@, ..old(self)@ }),
    {
        &mut self.line2
    }

    pub fn set_value(&mut self, value: i32)
        ensures
            final(self)@ == (GaugeView { value: value as int, ..old(self)@ }),
    {
        self.value = value;
    }

    /// Moves the indicated value one step towards the target.
    pub fn update_indicated(&mut self)
        ensures
            final(self)@ == (GaugeView {
                indicated_value: step_toward(old(self)@.indicated_value, old(self)@.value),
                ..old(self)@
            }),
    {
        let shown: i64 = self.indicated_value as i64;
        let target: i64 = self.value as i64;
        if shown < target {
            let next: i64 = shown + MAX_CHANGE as i64;
            self.indicated_value = if next < target {
                next as i32
            } else {
                self.value
            };
        } else if shown > target {
            let next: i64 = shown - MAX_CHANGE as i64;
            self.indicated_value = if next > target {
                next as i32
            } else {
                self.value
            };
        }
    }

    /// The two rings of the bezel and the arc of the redline zone.
    pub open spec fn bezel(context: &DashboardContext<W, H>) -> Seq<Shape> {
        seq![
            Shape::Arc {
                centre: Self::spec_centre(),
                diameter: W - I_OUTER_OFFSET,
                start: 120,
                sweep: 300,
                style: context.outer_style,
            },
            Shape::Arc {
                centre: Self::spec_centre(),
                diameter: W - I_P_OFFSET,
                start: 120,
                sweep: 300,
                style: context.inner_style,
            },
            Shape::Arc {
                centre: Self::spec_centre(),
                diameter: W - I_L_OFFSET,
                start: 0,
                sweep: 60,
                style: context.redline_style,
            },
        ]
    }

    /// Tick mark `i`, and behind every second one its number: ten times
    /// `i`. From the twentieth on both are in the colour of the redline.
    pub open spec fn tick_shapes(context: &DashboardContext<W, H>, i: int) -> Seq<Shape> {
        let mark = Shape::Line {
            from: context.outer@[i * TICK_STEP],
            to: context.p_point@[i * TICK_STEP],
            style: if i < 20 {
                context.tick_style
            } else {
                context.red_tick_style
            },
        };
        if i % 2 == 0 {
            seq![
                mark,
                Shape::Text {
                    text: decimal((i * 10) as nat),
                    anchor: context.l_point@[i * TICK_STEP],
                    style: if i < 20 {
                        context.text_style
                    } else {
                        context.red_text_style
                    },
                },
            ]
        } else {
            seq![mark]
        }
    }

    /// The first `n` tick marks with their numbers.
    pub open spec fn ticks(context: &DashboardContext<W, H>, n: nat) -> Seq<Shape>
        decreases n,
    {
        if n == 0 {
            Seq::empty()
        } else {
            Self::ticks(context, (n - 1) as nat) + Self::tick_shapes(context, n - 1)
        }
    }

    /// The static artwork, in the order in which it is painted: the bezel,
    /// then the 26 tick marks with their 13 numbers.
    pub open spec fn static_plan(context: &DashboardContext<W, H>) -> Seq<Shape> {
        Self::bezel(context) + Self::ticks(context, TICKS as nat)
    }

    /// What erases the dynamic region: a disc in the background colour.
    pub open spec fn clear_plan(context: &DashboardContext<W, H>) -> Seq<Shape> {
        seq![
            Shape::Disc {
                centre: Self::spec_centre(),
                diameter: CLEAR_RADIUS as int,
                color: context.back_color,
            },
        ]
    }

    /// Label `k` of the gauge, at the place of the number of tick mark `2 k`.
    pub open spec fn label(
        gauge: GaugeView<'a>,
        context: &DashboardContext<W, H>,
        k: int,
    ) -> Shape {
        Shape::Text {
            text: gauge.texts[k]@,
            anchor: context.l_point@[2 * k * TICK_STEP],
            style: if 2 * k < 20 {
                context.text_style
            } else {
                context.red_text_style
            },
        }
    }

    /// The needle, from the label ring to the needle ring at the entry of
    /// the indicated value.
    pub open spec fn needle(gauge: GaugeView<'a>, context: &DashboardContext<W, H>) -> Shape {
        let angle = value_to_angle(gauge.indicated_value, gauge.scaled_max);
        Shape::Line {
            from: context.l_point@[angle],
            to: context.n_point@[angle],
            style: context.needle_style,
        }
    }

    /// The dynamic artwork, in the order in which it is painted: the 13
    /// labels, the needle, the arc around the hub and the two text lines,
    /// the second 18 pixels below the first.
    pub open spec fn dynamic_plan(
        gauge: GaugeView<'a>,
        context: &DashboardContext<W, H>,
    ) -> Seq<Shape> {
        Seq::new(LABELS as nat, |k: int| Self::label(gauge, context, k)) + seq![
            Self::needle(gauge, context),
            Shape::Arc {
                centre: Self::spec_centre(),
                diameter: (W - I_N_OFFSET) / 2,
                start: 100,
                sweep: 340,
                style: context.outer_style,
            },
            Shape::Text {
                text: gauge.line1,
                anchor: context.centre,
                style: context.centre_text_style,
            },
            Shape::Text {
                text: gauge.line2,
                anchor: Point { x: context.centre.x, y: (context.centre.y + 18) as i32 },
                style: context.centre_text_style,
            },
        ]
    }

    /// Paints the static artwork over the whole frame. Meant to run once,
    /// before anything dynamic is painted.
    pub fn draw_static(
        &self,
        framebuffer: &mut PixelBuffer<W, H>,
        context: &DashboardContext<W, H>,
    )
        requires
            context.wf(),
        ensures
            final(framebuffer)@ == painted_all(
                old(framebuffer)@,
                W as int,
                H as int,
                PixelBuffer::<W, H>::spec_bounds(),
                Self::static_plan(context),
            ),
    {
        let clip = Rectangle { top_left: Point { x: 0, y: 0 }, width: W as u32, height: H as u32 };
        let centre = Point { x: (W / 2) as i32, y: (H / 2) as i32 };
        let ghost before = framebuffer@;
        let ghost bezel = Self::bezel(context);
        let ghost mut done: Seq<Shape> = Seq::empty();
        framebuffer.draw_arc(clip, centre, W as u32 - I_OUTER_OFFSET, 120, 300, context.outer_style);
        proof {
            lemma_painted_push(before, W as int, H as int, clip, done, bezel[0]);
            done = done.push(bezel[0]);
        }
        framebuffer.draw_arc(clip, centre, W as u32 - I_P_OFFSET, 120, 300, context.inner_style);
        proof {
            lemma_painted_push(before, W as int, H as int, clip, done, bezel[1]);
            done = done.push(bezel[1]);
        }
        framebuffer.draw_arc(clip, centre, W as u32 - I_L_OFFSET, 0, 60, context.redline_style);
        proof {
            lemma_painted_push(before, W as int, H as int, clip, done, bezel[2]);
            done = done.push(bezel[2]);
            assert(done =~= bezel + Self::ticks(context, 0));
        }
        let mut i: usize = 0;
        while i < TICKS
            invariant
                i <= TICKS,
                context.wf(),
                clip == PixelBuffer::<W, H>::spec_bounds(),
                bezel == Self::bezel(context),
                done == bezel + Self::ticks(context, i as nat),
                framebuffer@ == painted_all(before, W as int, H as int, clip, done),
            decreases TICKS - i,
        {
            let at: usize = i * TICK_STEP;
            let ghost shapes = Self::tick_shapes(context, i as int);
            let tick = if i < 20 {
                context.tick_style
            } else {
                context.red_tick_style
            };
            framebuffer.draw_line(clip, context.outer[at], context.p_point[at], tick);
            proof {
                lemma_painted_push(before, W as int, H as int, clip, done, shapes[0]);
                done = done.push(shapes[0]);
            }
            if i % 2 == 0 {
                let current_text_style = if i < 20 {
                    context.text_style
                } else {
                    context.red_text_style
                };
                framebuffer.draw_text(clip, tick_label(i / 2), context.l_point[at], current_text_style);
                proof {
                    lemma_painted_push(before, W as int, H as int, clip, done, shapes[1]);
                    done = done.push(shapes[1]);
                }
            }
            i += 1;
            assert(done =~= bezel + Self::ticks(context, i as nat));
        }
    }

    /// Erases the dynamic region: fills the disc of `CLEAR_RADIUS` pixels
    /// across around the centre with the background colour, inside the
    /// clipping rectangle of the context and nowhere else.
    pub fn draw_clear_mask(
        &self,
        framebuffer: &mut PixelBuffer<W, H>,
        context: &DashboardContext<W, H>,
    )
        requires
            context.wf(),
            CLEAR_RADIUS <= MAX_DIAMETER,
        ensures
            final(framebuffer)@ == painted_all(
                old(framebuffer)@,
                W as int,
                H as int,
                context.clearing_circle_bounds,
                Self::clear_plan(context),
            ),
            same_outside(
                old(framebuffer)@,
                final(framebuffer)@,
                W as int,
                context.clearing_circle_bounds,
            ),
    {
        let centre = Point { x: (W / 2) as i32, y: (H / 2) as i32 };
        let ghost before = framebuffer@;
        framebuffer.fill_disc(
            context.clearing_circle_bounds,
            centre,
            CLEAR_RADIUS as u32,
            context.back_color,
        );
        proof {
            lemma_painted_push(
                before,
                W as int,
                H as int,
                context.clearing_circle_bounds,
                Seq::empty(),
                Self::clear_plan(context)[0],
            );
            assert(Seq::<Shape>::empty().push(Self::clear_plan(context)[0]) =~= Self::clear_plan(
                context,
            ));
        }
    }

    /// Paints the dynamic artwork inside the clipping rectangle of the
    /// context and nowhere else.
    pub fn draw_dynamic(
        &self,
        framebuffer: &mut PixelBuffer<W, H>,
        context: &DashboardContext<W, H>,
    )
        requires
            context.wf(),
            Self::drawable(self@),
        ensures
            final(framebuffer)@ == painted_all(
                old(framebuffer)@,
                W as int,
                H as int,
                context.clearing_circle_bounds,
                Self::dynamic_plan(self@, context),
            ),
            same_outside(
                old(framebuffer)@,
                final(framebuffer)@,
                W as int,
                context.clearing_circle_bounds,
            ),
    {
        let clip = context.clearing_circle_bounds;
        let centre = Point { x: (W / 2) as i32, y: (H / 2) as i32 };
        let ghost before = framebuffer@;
        let ghost plan = Self::dynamic_plan(self@, context);
        let ghost mut done: Seq<Shape> = Seq::empty();
        let mut k: usize = 0;
        while k < LABELS
            invariant
                k <= LABELS,
                context.wf(),
                Self::drawable(self@),
                clip == context.clearing_circle_bounds,
                plan == Self::dynamic_plan(self@, context),
                done == plan.take(k as int),
                framebuffer@ == painted_all(before, W as int, H as int, clip, done),
                same_outside(before, framebuffer@, W as int, clip),
            decreases LABELS - k,
        {
            let current_text_style = if 2 * k < 20 {
                context.text_style
            } else {
                context.red_text_style
            };
            let ghost earlier = framebuffer@;
            framebuffer.draw_text(
                clip,
                self.texts[k],
                context.l_point[2 * k * TICK_STEP],
                current_text_style,
            );
            proof {
                lemma_painted_push(before, W as int, H as int, clip, done, plan[k as int]);
                lemma_same_outside_twice(before, earlier, framebuffer@, W as int, clip);
                done = done.push(plan[k as int]);
                assert(done =~= plan.take(k + 1));
            }
            k += 1;
        }
        let angle: usize = self.needle_angle();
        let ghost earlier = framebuffer@;
        framebuffer.draw_line(clip, context.l_point[angle], context.n_point[angle], context.needle_style);
        proof {
            lemma_painted_push(before, W as int, H as int, clip, done, plan[13]);
            lemma_same_outside_twice(before, earlier, framebuffer@, W as int, clip);
            done = done.push(plan[13]);
        }
        let ghost earlier = framebuffer@;
        framebuffer.draw_arc(clip, centre, (W as u32 - I_N_OFFSET) / 2, 100, 340, context.outer_style);
        proof {
            lemma_painted_push(before, W as int, H as int, clip, done, plan[14]);
            lemma_same_outside_twice(before, earlier, framebuffer@, W as int, clip);
            done = done.push(plan[14]);
        }
        let ghost earlier = framebuffer@;
        framebuffer.draw_text(clip, self.line1.as_str(), context.centre, context.centre_text_style);
        proof {
            lemma_painted_push(before, W as int, H as int, clip, done, plan[15]);
            lemma_same_outside_twice(before, earlier, framebuffer@, W as int, clip);
            done = done.push(plan[15]);
        }
        let ghost earlier = framebuffer@;
        framebuffer.draw_text(
            clip,
            self.line2.as_str(),
            Point { x: context.centre.x, y: context.centre.y + 18 },
            context.centre_text_style,
        );
        proof {
            lemma_painted_push(before, W as int, H as int, clip, done, plan[16]);
            lemma_same_outside_twice(before, earlier, framebuffer@, W as int, clip);
            done = done.push(plan[16]);
            assert(done =~= plan);
        }
    }

    /// The table entry at which the needle points.
    pub fn needle_angle(&self) -> (angle: usize)
        requires
            self@.scaled_max > 0,
        ensures
            angle == value_to_angle(self@.indicated_value, self@.scaled_max),
            angle < DEGREES,
    {
        let scale: u128 = self.scaled_max as u128;
        if self.indicated_value >= 0 {
            let scaled: u128 = self.indicated_value as u128 * 360;
            ((scaled / scale) % 360) as usize
        } else {
            let below: u128 = (-(self.indicated_value as i64)) as u128 * 360;
            let turns: u128 = (below + scale - 1) / scale;
            let rest: u128 = turns % 360;
            proof {
                let low = -(turns as int);
                vstd::arithmetic::div_mod::lemma_fundamental_div_mod(
                    below + scale - 1,
                    scale as int,
                );
                assert(turns * scale == scale * turns) by (nonlinear_arith);
                assert(self@.indicated_value * 360 == low * scale + (turns * scale - below))
                    by (nonlinear_arith)
                    requires
                        self@.indicated_value * 360 == -(below as int),
                        low == -(turns as int),
                ;
                vstd::arithmetic::div_mod::lemma_fundamental_div_mod_converse(
                    self@.indicated_value * 360,
                    scale as int,
                    low,
                    turns * scale - below,
                );
                vstd::arithmetic::div_mod::lemma_fundamental_div_mod(turns as int, 360);
                if rest == 0 {
                    vstd::arithmetic::div_mod::lemma_fundamental_div_mod_converse(
                        low,
                        360,
                        -(turns as int / 360),
                        0,
                    );
                } else {
                    vstd::arithmetic::div_mod::lemma_fundamental_div_mod_converse(
                        low,
                        360,
                        -(turns as int / 360) - 1,
                        360 - rest,
                    );
                }
            }
            if rest == 0 {
                0
            } else {
                (360 - rest) as usize
            }
        }
    }
}

/// The value that the simulated feed sets after `value`: three more, and
/// from 200 on zero again.
pub open spec fn spec_simulated(value: int) -> int {
    if value < SIMULATED_TOP {
        value + SIMULATED_STEP
    } else {
        0
    }
}

/// Drives the target of the gauge from the simulated feed.
pub fn simulate_value<
    'a,
    const W: usize,
    const H: usize,
    const BUFFER: usize,
    const CLEAR_RADIUS: usize,
    const MAX_VALUE: usize,
>(gauge: &mut Gauge<'a, W, H, BUFFER, CLEAR_RADIUS, MAX_VALUE>)
    ensures
        final(gauge)@ == (GaugeView { value: spec_simulated(old(gauge)@.value), ..old(gauge)@ }),
{
    let value: i32 = gauge.value;
    let new_value: i32 = if value < SIMULATED_TOP {
        value + SIMULATED_STEP
    } else {
        0
    };
    gauge.set_value(new_value);
}

} // verus!
