//! The drawing side of the hand-off: what one render cycle does with the
//! buffer that it was handed, and what it hands on.

use vstd::prelude::*;

use crate::canvas::painted_all;
use crate::canvas::same_outside;
use crate::canvas::PixelBuffer;
use crate::canvas::MAX_DIAMETER;
use crate::exchange::frame_in;
use crate::exchange::spec_take;
use crate::exchange::DrawBufferStatus;
use crate::exchange::PhaseSignal;
use crate::gauge::step_toward;
use crate::gauge::DashboardContext;
use crate::gauge::Gauge;
use crate::gauge::GaugeView;

verus! {

/// Milliseconds between two polls of the phase signal by the drawing side.
pub const DRAWING_POLL_MS: u64 = 1;

/// Polls the signal once for the drawing side: takes whatever phase was
/// signalled and tells whether it was the turn to draw.
///
/// The caller polls again, after `DRAWING_POLL_MS`, until the answer is yes.
pub fn wait_for_drawing(signal: &mut PhaseSignal) -> (ready: bool)
    ensures
        final(signal)@ == spec_take(old(signal)@).0,
        ready == (old(signal)@ == Some(DrawBufferStatus::Drawing)),
{
    match signal.try_take() {
        Some(DrawBufferStatus::Drawing) => true,
        Some(_status) => false,
        None => false,
    }
}

/// One render cycle on what a take from the shared cell handed out.
///
/// With a buffer: moves the needle one step, erases the dynamic region,
/// paints it anew, sets the two text lines for the next frame, and hands
/// the buffer on with the phase to signal once it is back in the cell.
/// Nothing outside the clipping rectangle of the context is touched.
/// Without a buffer the other side has it: the cycle is skipped and the
/// gauge stays as it is.
pub fn render_system<
    'a,
    const W: usize,
    const H: usize,
    const BUFFER: usize,
    const CLEAR_RADIUS: usize,
    const MAX_VALUE: usize,
>(
    gauge: &mut Gauge<'a, W, H, BUFFER, CLEAR_RADIUS, MAX_VALUE>,
    context: &DashboardContext<W, H>,
    taken: Option<PixelBuffer<W, H>>,
) -> (handoff: Option<(PixelBuffer<W, H>, DrawBufferStatus)>)
    requires
        context.wf(),
        Gauge::<'a, W, H, BUFFER, CLEAR_RADIUS, MAX_VALUE>::drawable(old(gauge)@),
        CLEAR_RADIUS <= MAX_DIAMETER,
    ensures
        taken is None ==> handoff is None && final(gauge)@ == old(gauge)@,
        taken matches Some(buffer) ==> {
            let shown = GaugeView {
                indicated_value: step_toward(old(gauge)@.indicated_value, old(gauge)@.value),
                ..old(gauge)@
            };
            &&& handoff matches Some((drawn, phase))
            &&& phase == DrawBufferStatus::Flushing
            &&& drawn@ == painted_all(
                painted_all(
                    buffer@,
                    W as int,
                    H as int,
                    context.clearing_circle_bounds,
                    Gauge::<'a, W, H, BUFFER, CLEAR_RADIUS, MAX_VALUE>::clear_plan(context),
                ),
                W as int,
                H as int,
                context.clearing_circle_bounds,
                Gauge::<'a, W, H, BUFFER, CLEAR_RADIUS, MAX_VALUE>::dynamic_plan(shown, context),
            )
            &&& same_outside(buffer@, drawn@, W as int, context.clearing_circle_bounds)
            &&& final(gauge)@ == (GaugeView { line1: "blabla"@, line2: "123456"@, ..shown })
        },
        Gauge::<'a, W, H, BUFFER, CLEAR_RADIUS, MAX_VALUE>::drawable(final(gauge)@),
{
    match taken {
        Some(mut buffer) => {
            let ghost before = buffer@;
            gauge.update_indicated();
            gauge.draw_clear_mask(&mut buffer, context);
            let ghost cleared = buffer@;
            gauge.draw_dynamic(&mut buffer, context);
            gauge.set_line1("blabla".to_owned());
            gauge.set_line2("123456".to_owned());
            proof {
                reveal_strlit("blabla");
                reveal_strlit("123456");
                crate::canvas::lemma_same_outside_twice(
                    before,
                    cleared,
                    buffer@,
                    W as int,
                    context.clearing_circle_bounds,
                );
            }
            Some((buffer, DrawBufferStatus::Flushing))
        },
        None => None,
    }
}

/// Prepares the first frame on what a take from the shared cell handed out:
/// with a buffer, paints the static artwork and hands the buffer back for
/// the cell; without one, hands back nothing, and the caller tries again.
pub fn initialize_game<
    'a,
    const W: usize,
    const H: usize,
    const BUFFER: usize,
    const CLEAR_RADIUS: usize,
    const MAX_VALUE: usize,
>(
    gauge: &Gauge<'a, W, H, BUFFER, CLEAR_RADIUS, MAX_VALUE>,
    context: &DashboardContext<W, H>,
    taken: Option<PixelBuffer<W, H>>,
) -> (prepared: Option<PixelBuffer<W, H>>)
    requires
        context.wf(),
    ensures
        taken is None ==> prepared is None,
        taken matches Some(buffer) ==> frame_in(prepared) == Some(
            painted_all(
                buffer@,
                W as int,
                H as int,
                PixelBuffer::<W, H>::spec_bounds(),
                Gauge::<'a, W, H, BUFFER, CLEAR_RADIUS, MAX_VALUE>::static_plan(context),
            ),
        ),
{
    match taken {
        Some(mut buffer) => {
            gauge.draw_static(&mut buffer, context);
            Some(buffer)
        },
        None => None,
    }
}

} // verus!
