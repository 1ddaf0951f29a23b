//! The panel driver: one full refresh of a row-multiplexed RGB panel.
//!
//! A refresh walks through the brightness passes in rising order. In each pass it
//! visits every row address once and goes through the same five phases there:
//! shift the row pair into the panel column by column, blank the output, latch
//! what was shifted, select the row address, and enable the output again. The
//! panel is left blanked at the end of the refresh so that the last row is not lit
//! longer than the others.
//!
//! What a refresh does is fixed by the frame and the brightness schedule alone.
//! This module states it as a plan, the sequence of actions in the order in which
//! they are asked of the lines, and proves that the driver asks for exactly the
//! plan and gives up at the first line that refuses.

use vstd::prelude::*;
use crate::brightness::count_for;
use crate::brightness::is_lit;
use crate::brightness::lit;
use crate::brightness::step_for;
use crate::brightness::threshold_at;
use crate::brightness::Brightness;
use crate::brightness::ConfigError;
use crate::framebuffer::slot_of;
use crate::framebuffer::stored;
use crate::framebuffer::in_bounds;
use crate::framebuffer::blank;
use crate::framebuffer::cleared;
use crate::framebuffer::FrameBuffer;
use crate::framebuffer::PixelData;
use crate::framebuffer::Rgb;
use crate::framebuffer::ADDRESSABLE_ROWS;
use crate::framebuffer::WIDTH;
use crate::outputs::lemma_ran_nothing;
use crate::outputs::lemma_ran_one;
use crate::outputs::lemma_ran_stopped;
use crate::outputs::lemma_ran_then;
use crate::outputs::ran;
use crate::outputs::Action;
use crate::outputs::Attempt;
use crate::outputs::Line;
use crate::outputs::Logged;
use crate::outputs::Outputs;

verus! {

/// The pause, in microseconds, that the panel needs around a latch pulse and
/// before its output is enabled again.
pub const SETTLE_US: u32 = 2;

/// Shifting one column: the six colour lines show whether each sub-pixel is lit in
/// this pass, then the shift clock goes high and low again.
pub open spec fn column_plan(slot: PixelData, threshold: u8) -> Seq<Action> {
    seq![
        Action::Drive(Line::R1, lit(slot.r1, threshold)),
        Action::Drive(Line::G1, lit(slot.g1, threshold)),
        Action::Drive(Line::B1, lit(slot.b1, threshold)),
        Action::Drive(Line::R2, lit(slot.r2, threshold)),
        Action::Drive(Line::G2, lit(slot.g2, threshold)),
        Action::Drive(Line::B2, lit(slot.b2, threshold)),
        Action::Drive(Line::Clk, true),
        Action::Drive(Line::Clk, false),
    ]
}

/// Shifting the first `columns` columns of the row pair at row address `row`.
pub open spec fn shift_plan(grid: Seq<Seq<Rgb>>, row: int, threshold: u8, columns: nat) -> Seq<
    Action,
>
    decreases columns,
{
    if columns == 0 {
        Seq::empty()
    } else {
        shift_plan(grid, row, threshold, (columns - 1) as nat) + column_plan(
            slot_of(grid, row, columns - 1),
            threshold,
        )
    }
}

/// Blanking the panel before anything about the row changes.
pub open spec fn disable_plan() -> Seq<Action> {
    seq![Action::Drive(Line::Oe, true)]
}

/// The latch pulse: low and high again, with a pause before each edge.
pub open spec fn latch_plan() -> Seq<Action> {
    seq![
        Action::DelayUs(SETTLE_US),
        Action::Drive(Line::Lat, false),
        Action::DelayUs(SETTLE_US),
        Action::Drive(Line::Lat, true),
    ]
}

/// Bit `bit` of the row address `row`.
pub open spec fn address_bit(row: int, bit: nat) -> bool {
    (row / vstd::arithmetic::power2::pow2(bit) as int) % 2 == 1
}

/// Selecting a row address: one address line per bit, lowest first.
pub open spec fn address_plan(row: int) -> Seq<Action> {
    seq![
        Action::Drive(Line::A, address_bit(row, 0)),
        Action::Drive(Line::B, address_bit(row, 1)),
        Action::Drive(Line::C, address_bit(row, 2)),
        Action::Drive(Line::D, address_bit(row, 3)),
        Action::Drive(Line::F, address_bit(row, 4)),
    ]
}

/// Lighting the row that was latched and selected, after a pause.
pub open spec fn enable_plan() -> Seq<Action> {
    seq![Action::DelayUs(SETTLE_US), Action::Drive(Line::Oe, false)]
}

/// One row address in one pass: shift, blank, latch, select, enable.
pub open spec fn row_plan(grid: Seq<Seq<Rgb>>, row: int, threshold: u8) -> Seq<Action> {
    shift_plan(grid, row, threshold, WIDTH as nat) + disable_plan() + latch_plan() + address_plan(
        row,
    ) + enable_plan()
}

/// The first `rows` row addresses of one pass, in rising order.
pub open spec fn pass_plan(grid: Seq<Seq<Rgb>>, threshold: u8, rows: nat) -> Seq<Action>
    decreases rows,
{
    if rows == 0 {
        Seq::empty()
    } else {
        pass_plan(grid, threshold, (rows - 1) as nat) + row_plan(grid, rows - 1, threshold)
    }
}

/// The first `levels` passes of a refresh: pass `level` compares with
/// `threshold_at(step, level)`, and level 0 is never scanned.
pub open spec fn cycle_plan(grid: Seq<Seq<Rgb>>, step: int, levels: nat) -> Seq<Action>
    decreases levels,
{
    if levels == 0 {
        Seq::empty()
    } else {
        cycle_plan(grid, step, (levels - 1) as nat) + pass_plan(
            grid,
            threshold_at(step, levels as int) as u8,
            ADDRESSABLE_ROWS as nat,
        )
    }
}

/// A full refresh at `bit_depth`: the output is enabled for the row that was
/// selected last, every pass is scanned, and the panel is left blanked.
pub open spec fn refresh_plan(grid: Seq<Seq<Rgb>>, bit_depth: int) -> Seq<Action> {
    seq![Action::Drive(Line::Oe, false)] + cycle_plan(
        grid,
        step_for(bit_depth),
        count_for(bit_depth) as nat,
    ) + seq![Action::Drive(Line::Oe, true)]
}

/// The actions of one row address: eight per column and twelve to show the row.
pub const ROW_ACTIONS: usize = 524;

/// Shifting takes eight actions per column.
pub proof fn lemma_shift_plan_length(grid: Seq<Seq<Rgb>>, row: int, threshold: u8, columns: nat)
    ensures
        shift_plan(grid, row, threshold, columns).len() == 8 * columns,
    decreases columns,
{
    if columns > 0 {
        lemma_shift_plan_length(grid, row, threshold, (columns - 1) as nat);
    }
}

/// A pass takes `ROW_ACTIONS` actions per row address.
pub proof fn lemma_pass_plan_length(grid: Seq<Seq<Rgb>>, threshold: u8, rows: nat)
    ensures
        pass_plan(grid, threshold, rows).len() == ROW_ACTIONS * rows,
    decreases rows,
{
    if rows > 0 {
        lemma_pass_plan_length(grid, threshold, (rows - 1) as nat);
        lemma_shift_plan_length(grid, rows - 1, threshold, WIDTH as nat);
    }
}

/// A refresh takes two actions more than all row addresses of all its passes.
pub proof fn lemma_refresh_plan_length(grid: Seq<Seq<Rgb>>, bit_depth: int)
    requires
        1 <= bit_depth <= 8,
    ensures
        refresh_plan(grid, bit_depth).len() == 2 + ROW_ACTIONS * ADDRESSABLE_ROWS * count_for(
            bit_depth,
        ),
{
    crate::brightness::lemma_schedule_values(bit_depth);
    lemma_cycle_plan_length(grid, step_for(bit_depth), count_for(bit_depth) as nat);
}

/// The passes of a refresh take `ROW_ACTIONS` actions per row address each.
proof fn lemma_cycle_plan_length(grid: Seq<Seq<Rgb>>, step: int, levels: nat)
    ensures
        cycle_plan(grid, step, levels).len() == ROW_ACTIONS * ADDRESSABLE_ROWS * levels,
    decreases levels,
{
    if levels > 0 {
        lemma_cycle_plan_length(grid, step, (levels - 1) as nat);
        lemma_pass_plan_length(
            grid,
            #[verifier::truncate]
            (threshold_at(step, levels as int) as u8),
            ADDRESSABLE_ROWS as nat,
        );
    }
}

/// Shifting more columns only adds to the end of the plan.
proof fn lemma_shift_plan_grows(
    grid: Seq<Seq<Rgb>>,
    row: int,
    threshold: u8,
    fewer: nat,
    more: nat,
)
    requires
        fewer <= more,
    ensures
        shift_plan(grid, row, threshold, fewer).is_prefix_of(
            shift_plan(grid, row, threshold, more),
        ),
    decreases more,
{
    if fewer < more {
        lemma_shift_plan_grows(grid, row, threshold, fewer, (more - 1) as nat);
    }
}

/// Scanning more rows only adds to the end of the plan.
proof fn lemma_pass_plan_grows(grid: Seq<Seq<Rgb>>, threshold: u8, fewer: nat, more: nat)
    requires
        fewer <= more,
    ensures
        pass_plan(grid, threshold, fewer).is_prefix_of(pass_plan(grid, threshold, more)),
    decreases more,
{
    if fewer < more {
        lemma_pass_plan_grows(grid, threshold, fewer, (more - 1) as nat);
    }
}

/// Scanning more passes only adds to the end of the plan.
proof fn lemma_cycle_plan_grows(grid: Seq<Seq<Rgb>>, step: int, fewer: nat, more: nat)
    requires
        fewer <= more,
    ensures
        cycle_plan(grid, step, fewer).is_prefix_of(cycle_plan(grid, step, more)),
    decreases more,
{
    if fewer < more {
        lemma_cycle_plan_grows(grid, step, fewer, (more - 1) as nat);
    }
}

/// Carries a run on by one part. The run so far went through `done`; the part
/// that was just run is `part`; both together begin `plan`. If the part went
/// through, so did `done + part`; if it was refused, the whole `plan` was.
proof fn lemma_ran_part<E>(
    start: Seq<Attempt<E>>,
    before: Seq<Attempt<E>>,
    after: Seq<Attempt<E>>,
    done: Seq<Action>,
    part: Seq<Action>,
    plan: Seq<Action>,
    r: Result<(), E>,
)
    requires
        ran(start, before, done, Ok::<(), E>(())),
        ran(before, after, part, r),
        (done + part).is_prefix_of(plan),
    ensures
        r is Ok ==> ran(start, after, done + part, r),
        r is Err ==> ran(start, after, plan, r),
{
    lemma_ran_then(start, before, after, done, part, r);
    if let Err(e) = r {
        lemma_ran_stopped(start, after, done + part, plan, e);
    }
}

/// Drives one line as the next action of a plan that has gone through `done`.
fn advance<P: Outputs>(
    pins: &mut Logged<P>,
    line: Line,
    high: bool,
    Ghost(start): Ghost<Seq<Attempt<P::Error>>>,
    Ghost(done): Ghost<Seq<Action>>,
    Ghost(plan): Ghost<Seq<Action>>,
) -> (r: Result<(), P::Error>)
    requires
        ran(start, old(pins).log(), done, Ok::<(), P::Error>(())),
        done.push(Action::Drive(line, high)).is_prefix_of(plan),
    ensures
        r is Ok ==> ran(start, final(pins).log(), done.push(Action::Drive(line, high)), r),
        r is Err ==> ran(start, final(pins).log(), plan, r),
{
    let ghost before = pins.log();
    let r = pins.drive(line, high);
    proof {
        let attempt = Attempt { action: Action::Drive(line, high), result: r };
        lemma_ran_one(before, attempt);
        assert(done + seq![attempt.action] =~= done.push(attempt.action));
        lemma_ran_part(start, before, pins.log(), done, seq![attempt.action], plan, r);
    }
    r
}

/// Lets time pass as the next action of a plan that has gone through `done`.
fn pause<P: Outputs>(
    pins: &mut Logged<P>,
    micros: u32,
    Ghost(start): Ghost<Seq<Attempt<P::Error>>>,
    Ghost(done): Ghost<Seq<Action>>,
)
    requires
        ran(start, old(pins).log(), done, Ok::<(), P::Error>(())),
    ensures
        ran(
            start,
            final(pins).log(),
            done.push(Action::DelayUs(micros)),
            Ok::<(), P::Error>(()),
        ),
{
    let ghost before = pins.log();
    pins.delay_us(micros);
    proof {
        let attempt = Attempt::<P::Error> { action: Action::DelayUs(micros), result: Ok(()) };
        lemma_ran_one(before, attempt);
        assert(done + seq![attempt.action] =~= done.push(attempt.action));
        lemma_ran_then(start, before, pins.log(), done, seq![attempt.action], attempt.result);
    }
}

/// Shifts one column into the panel.
fn clock_in_column<P: Outputs>(pins: &mut Logged<P>, slot: PixelData, threshold: u8) -> (r: Result<
    (),
    P::Error,
>)
    ensures
        ran(old(pins).log(), final(pins).log(), column_plan(slot, threshold), r),
{
    let ghost start = pins.log();
    let ghost plan = column_plan(slot, threshold);
    proof {
        lemma_ran_nothing(start);
    }
    advance(pins, Line::R1, is_lit(slot.r1, threshold), Ghost(start), Ghost(plan.take(0)), Ghost(plan))?;
    advance(pins, Line::G1, is_lit(slot.g1, threshold), Ghost(start), Ghost(plan.take(1)), Ghost(plan))?;
    advance(pins, Line::B1, is_lit(slot.b1, threshold), Ghost(start), Ghost(plan.take(2)), Ghost(plan))?;
    advance(pins, Line::R2, is_lit(slot.r2, threshold), Ghost(start), Ghost(plan.take(3)), Ghost(plan))?;
    advance(pins, Line::G2, is_lit(slot.g2, threshold), Ghost(start), Ghost(plan.take(4)), Ghost(plan))?;
    advance(pins, Line::B2, is_lit(slot.b2, threshold), Ghost(start), Ghost(plan.take(5)), Ghost(plan))?;
    advance(pins, Line::Clk, true, Ghost(start), Ghost(plan.take(6)), Ghost(plan))?;
    advance(pins, Line::Clk, false, Ghost(start), Ghost(plan.take(7)), Ghost(plan))?;
    Ok(())
}

/// Shifts the row pair at row address `row_index` into the panel, lighting a
/// sub-pixel where its stored intensity reaches `threshold`.
fn clock_in_row_data<P: Outputs>(
    frame: &FrameBuffer,
    pins: &mut Logged<P>,
    row_index: usize,
    threshold: u8,
) -> (r: Result<(), P::Error>)
    requires
        row_index < ADDRESSABLE_ROWS,
    ensures
        ran(
            old(pins).log(),
            final(pins).log(),
            shift_plan(frame@, row_index as int, threshold, WIDTH as nat),
            r,
        ),
{
    let ghost start = pins.log();
    let ghost plan = shift_plan(frame@, row_index as int, threshold, WIDTH as nat);
    proof {
        lemma_ran_nothing(start);
    }
    let mut col: usize = 0;
    while col < WIDTH
        invariant
            col <= WIDTH,
            row_index < ADDRESSABLE_ROWS,
            start == old(pins).log(),
            plan == shift_plan(frame@, row_index as int, threshold, WIDTH as nat),
            ran(
                start,
                pins.log(),
                shift_plan(frame@, row_index as int, threshold, col as nat),
                Ok::<(), P::Error>(()),
            ),
        decreases WIDTH - col,
    {
        let ghost before = pins.log();
        let slot = frame.column(row_index, col);
        let shifted = clock_in_column(pins, slot, threshold);
        proof {
            lemma_shift_plan_grows(frame@, row_index as int, threshold, (col + 1) as nat, WIDTH as nat);
            lemma_ran_part(
                start,
                before,
                pins.log(),
                shift_plan(frame@, row_index as int, threshold, col as nat),
                column_plan(slot, threshold),
                plan,
                shifted,
            );
        }
        shifted?;
        col += 1;
    }
    Ok(())
}

/// Pulses the latch line to move what was shifted to the row drivers.
fn latch_data<P: Outputs>(pins: &mut Logged<P>) -> (r: Result<(), P::Error>)
    ensures
        ran(old(pins).log(), final(pins).log(), latch_plan(), r),
{
    let ghost start = pins.log();
    let ghost plan = latch_plan();
    proof {
        lemma_ran_nothing(start);
    }
    pause(pins, SETTLE_US, Ghost(start), Ghost(plan.take(0)));
    advance(pins, Line::Lat, false, Ghost(start), Ghost(plan.take(1)), Ghost(plan))?;
    pause(pins, SETTLE_US, Ghost(start), Ghost(plan.take(2)));
    advance(pins, Line::Lat, true, Ghost(start), Ghost(plan.take(3)), Ghost(plan))?;
    Ok(())
}

/// The bits of a row address are what masking with the powers of two finds.
proof fn lemma_address_bits(row: usize)
    ensures
        address_bit(row as int, 0) == ((row & 1) != 0),
        address_bit(row as int, 1) == ((row & 2) != 0),
        address_bit(row as int, 2) == ((row & 4) != 0),
        address_bit(row as int, 3) == ((row & 8) != 0),
        address_bit(row as int, 4) == ((row & 16) != 0),
{
    vstd::arithmetic::power2::lemma2_to64();
    assert(((row / 1) % 2 == 1) == ((row & 1) != 0)) by (bit_vector);
    assert(((row / 2) % 2 == 1) == ((row & 2) != 0)) by (bit_vector);
    assert(((row / 4) % 2 == 1) == ((row & 4) != 0)) by (bit_vector);
    assert(((row / 8) % 2 == 1) == ((row & 8) != 0)) by (bit_vector);
    assert(((row / 16) % 2 == 1) == ((row & 16) != 0)) by (bit_vector);
}

/// Puts the row address on the address lines.
fn select_row<P: Outputs>(pins: &mut Logged<P>, row_index: usize) -> (r: Result<(), P::Error>)
    ensures
        ran(old(pins).log(), final(pins).log(), address_plan(row_index as int), r),
{
    let ghost start = pins.log();
    let ghost plan = address_plan(row_index as int);
    proof {
        lemma_ran_nothing(start);
        lemma_address_bits(row_index);
    }
    advance(pins, Line::A, (row_index & 1) != 0, Ghost(start), Ghost(plan.take(0)), Ghost(plan))?;
    advance(pins, Line::B, (row_index & 2) != 0, Ghost(start), Ghost(plan.take(1)), Ghost(plan))?;
    advance(pins, Line::C, (row_index & 4) != 0, Ghost(start), Ghost(plan.take(2)), Ghost(plan))?;
    advance(pins, Line::D, (row_index & 8) != 0, Ghost(start), Ghost(plan.take(3)), Ghost(plan))?;
    advance(pins, Line::F, (row_index & 16) != 0, Ghost(start), Ghost(plan.take(4)), Ghost(plan))?;
    Ok(())
}

/// Takes one row address through its five phases.
fn scan_row<P: Outputs>(frame: &FrameBuffer, pins: &mut Logged<P>, row_index: usize, threshold: u8) -> (r:
    Result<(), P::Error>)
    requires
        row_index < ADDRESSABLE_ROWS,
    ensures
        ran(old(pins).log(), final(pins).log(), row_plan(frame@, row_index as int, threshold), r),
{
    let ghost start = pins.log();
    let ghost plan = row_plan(frame@, row_index as int, threshold);
    let ghost shift = shift_plan(frame@, row_index as int, threshold, WIDTH as nat);
    proof {
        lemma_ran_nothing(start);
    }
    let shifted = clock_in_row_data(frame, pins, row_index, threshold);
    proof {
        assert(Seq::<Action>::empty() + shift =~= shift);
        lemma_ran_part(start, start, pins.log(), Seq::empty(), shift, plan, shifted);
    }
    shifted?;
    advance(pins, Line::Oe, true, Ghost(start), Ghost(shift), Ghost(plan))?;
    let ghost disabled = shift + disable_plan();
    proof {
        assert(shift.push(Action::Drive(Line::Oe, true)) =~= disabled);
    }
    let ghost before = pins.log();
    let latched = latch_data(pins);
    proof {
        lemma_ran_part(start, before, pins.log(), disabled, latch_plan(), plan, latched);
    }
    latched?;
    let ghost before = pins.log();
    let selected = select_row(pins, row_index);
    proof {
        lemma_ran_part(
            start,
            before,
            pins.log(),
            disabled + latch_plan(),
            address_plan(row_index as int),
            plan,
            selected,
        );
    }
    selected?;
    let ghost addressed = disabled + latch_plan() + address_plan(row_index as int);
    pause(pins, SETTLE_US, Ghost(start), Ghost(addressed));
    advance(
        pins,
        Line::Oe,
        false,
        Ghost(start),
        Ghost(addressed.push(Action::DelayUs(SETTLE_US))),
        Ghost(plan),
    )?;
    proof {
        assert(addressed.push(Action::DelayUs(SETTLE_US)).push(Action::Drive(Line::Oe, false))
            =~= plan);
    }
    Ok(())
}

/// Scans every row address once, comparing with `threshold`.
fn scan_pass<P: Outputs>(frame: &FrameBuffer, pins: &mut Logged<P>, threshold: u8) -> (r: Result<
    (),
    P::Error,
>)
    ensures
        ran(
            old(pins).log(),
            final(pins).log(),
            pass_plan(frame@, threshold, ADDRESSABLE_ROWS as nat),
            r,
        ),
{
    let ghost start = pins.log();
    let ghost plan = pass_plan(frame@, threshold, ADDRESSABLE_ROWS as nat);
    proof {
        lemma_ran_nothing(start);
    }
    let mut row_index: usize = 0;
    while row_index < ADDRESSABLE_ROWS
        invariant
            row_index <= ADDRESSABLE_ROWS,
            start == old(pins).log(),
            plan == pass_plan(frame@, threshold, ADDRESSABLE_ROWS as nat),
            ran(
                start,
                pins.log(),
                pass_plan(frame@, threshold, row_index as nat),
                Ok::<(), P::Error>(()),
            ),
        decreases ADDRESSABLE_ROWS - row_index,
    {
        let ghost before = pins.log();
        let scanned = scan_row(frame, pins, row_index, threshold);
        proof {
            lemma_pass_plan_grows(frame@, threshold, (row_index + 1) as nat, ADDRESSABLE_ROWS as nat);
            lemma_ran_part(
                start,
                before,
                pins.log(),
                pass_plan(frame@, threshold, row_index as nat),
                row_plan(frame@, row_index as int, threshold),
                plan,
                scanned,
            );
        }
        scanned?;
        row_index += 1;
    }
    Ok(())
}

/// Shows `frame` on the panel once: one pass per brightness level of `brightness`,
/// in rising order, each over all row addresses.
///
/// The lines are asked for the actions of `refresh_plan`, in order. The call
/// returns `Ok` when every line took every level asked of it. At the first line
/// that refuses, nothing more is asked and the refusal is returned: the panel is
/// then in the middle of a scan, and the caller should stop driving it.
pub fn refresh<P: Outputs>(
    frame: &FrameBuffer,
    brightness: &Brightness,
    pins: &mut Logged<P>,
) -> (r:
    Result<(), P::Error>)
    ensures
        ran(old(pins).log(), final(pins).log(), refresh_plan(frame@, brightness.depth()), r),
{
    let ghost start = pins.log();
    let ghost step = step_for(brightness.depth());
    let ghost plan = refresh_plan(frame@, brightness.depth());
    let ghost lead = seq![Action::Drive(Line::Oe, false)];
    let count = brightness.brightness_count();
    proof {
        lemma_ran_nothing(start);
        assert(Seq::<Action>::empty().push(Action::Drive(Line::Oe, false)) =~= lead);
    }
    advance(pins, Line::Oe, false, Ghost(start), Ghost(Seq::empty()), Ghost(plan))?;
    proof {
        assert(lead + cycle_plan(frame@, step, 0) =~= lead);
    }
    let mut level: u8 = 0;
    while level < count
        invariant
            level <= count,
            count == count_for(brightness.depth()),
            step == step_for(brightness.depth()),
            start == old(pins).log(),
            lead == seq![Action::Drive(Line::Oe, false)],
            plan == refresh_plan(frame@, brightness.depth()),
            ran(
                start,
                pins.log(),
                lead + cycle_plan(frame@, step, level as nat),
                Ok::<(), P::Error>(()),
            ),
        decreases count - level,
    {
        let threshold = brightness.threshold(level + 1);
        let ghost before = pins.log();
        let scanned = scan_pass(frame, pins, threshold);
        proof {
            let done = lead + cycle_plan(frame@, step, level as nat);
            let pass = pass_plan(frame@, threshold, ADDRESSABLE_ROWS as nat);
            lemma_cycle_plan_grows(frame@, step, (level + 1) as nat, count as nat);
            assert(done + pass =~= lead + cycle_plan(frame@, step, (level + 1) as nat));
            lemma_ran_part(start, before, pins.log(), done, pass, plan, scanned);
        }
        scanned?;
        level += 1;
    }
    advance(
        pins,
        Line::Oe,
        true,
        Ghost(start),
        Ghost(lead + cycle_plan(frame@, step, count as nat)),
        Ghost(plan),
    )?;
    proof {
        assert((lead + cycle_plan(frame@, step, count as nat)).push(Action::Drive(Line::Oe, true))
            =~= plan);
    }
    Ok(())
}

/// One pixel to draw: a position and a linear colour.
#[derive(Clone, Copy, Debug, PartialEq, Eq, Structural)]
pub struct Pixel {
    pub x: i32,
    pub y: i32,
    pub color: Rgb,
}

/// `grid` after `pixel` was drawn: the gamma-corrected colour at its position, or
/// no change where the position lies outside the panel.
pub open spec fn drawn_one(grid: Seq<Seq<Rgb>>, pixel: Pixel) -> Seq<Seq<Rgb>> {
    if in_bounds(pixel.x as int, pixel.y as int) {
        grid.update(pixel.y as int, grid[pixel.y as int].update(pixel.x as int, stored(pixel.color)))
    } else {
        grid
    }
}

/// `grid` after the first `count` of `pixels` were drawn in order, a later pixel
/// over an earlier one.
pub open spec fn drawn(grid: Seq<Seq<Rgb>>, pixels: Seq<Pixel>, count: nat) -> Seq<Seq<Rgb>>
    decreases count,
{
    if count == 0 {
        grid
    } else {
        drawn_one(drawn(grid, pixels, (count - 1) as nat), pixels[count - 1])
    }
}

/// A panel driver with its own frame.
///
/// It owns the lines, the brightness schedule and the frame that `output` shows.
/// Drawing changes the frame only; nothing reaches the panel before `output`.
pub struct Hub75<PINS: Outputs> {
    data: FrameBuffer,
    brightness: Brightness,
    pins: Logged<PINS>,
}

impl<PINS: Outputs> Hub75<PINS> {
    /// The frame that the next `output` shows.
    pub closed spec fn frame(&self) -> Seq<Seq<Rgb>> {
        self.data@
    }

    /// The bit depth of the brightness schedule.
    pub closed spec fn depth(&self) -> int {
        self.brightness.depth()
    }

    /// The lines to the panel.
    pub closed spec fn lines(&self) -> PINS {
        self.pins.lines()
    }

    /// Everything that the driver asked of the lines so far, oldest first.
    pub closed spec fn log(&self) -> Seq<Attempt<PINS::Error>> {
        self.pins.log()
    }

    /// A driver over `pins` with a dark frame, or the refusal of a bit depth
    /// outside `1..=8`. Nothing is asked of the lines either way.
    pub fn new(pins: PINS, brightness_bits: u8) -> (r: Result<Self, ConfigError>)
        ensures
            match r {
                Ok(hub) => {
                    &&& 1 <= brightness_bits <= 8
                    &&& hub.frame() == blank()
                    &&& hub.depth() == brightness_bits
                    &&& hub.lines() == pins
                    &&& hub.log() == Seq::<Attempt<PINS::Error>>::empty()
                },
                Err(e) => {
                    &&& !(1 <= brightness_bits <= 8)
                    &&& e == ConfigError::InvalidBitDepth(brightness_bits)
                },
            },
    {
        match Brightness::configure(brightness_bits) {
            Ok(brightness) => Ok(
                Hub75 { data: FrameBuffer::new(), brightness, pins: Logged::new(pins) },
            ),
            Err(e) => Err(e),
        }
    }

    /// Shows the frame on the panel once; see [`refresh`]. Call it again and again,
    /// without long breaks, for a steady picture.
    pub fn output(&mut self) -> (r: Result<(), PINS::Error>)
        ensures
            ran(
                old(self).log(),
                final(self).log(),
                refresh_plan(old(self).frame(), old(self).depth()),
                r,
            ),
            final(self).frame() == old(self).frame(),
            final(self).depth() == old(self).depth(),
    {
        refresh(&self.data, &self.brightness, &mut self.pins)
    }

    /// Switches every pixel of the frame off.
    pub fn clear(&mut self)
        ensures
            final(self).frame() == cleared(old(self).frame()),
            final(self).frame() == blank(),
            final(self).depth() == old(self).depth(),
            final(self).lines() == old(self).lines(),
            final(self).log() == old(self).log(),
    {
        self.data.clear();
    }

    /// Draws one pixel; a position outside the panel is ignored.
    pub fn set_pixel(&mut self, pixel: Pixel)
        ensures
            final(self).frame() == drawn_one(old(self).frame(), pixel),
            final(self).depth() == old(self).depth(),
            final(self).lines() == old(self).lines(),
            final(self).log() == old(self).log(),
    {
        self.data.set(pixel.x, pixel.y, pixel.color);
    }

    /// Draws `pixels` in order.
    pub fn draw_iter(&mut self, pixels: &[Pixel])
        ensures
            final(self).frame() == drawn(old(self).frame(), pixels@, pixels@.len()),
            final(self).depth() == old(self).depth(),
            final(self).lines() == old(self).lines(),
            final(self).log() == old(self).log(),
    {
        let mut i: usize = 0;
        while i < pixels.len()
            invariant
                i <= pixels@.len(),
                self.frame() == drawn(old(self).frame(), pixels@, i as nat),
                self.depth() == old(self).depth(),
                self.lines() == old(self).lines(),
                self.log() == old(self).log(),
            decreases pixels@.len() - i,
        {
            self.data.set(pixels[i].x, pixels[i].y, pixels[i].color);
            i += 1;
        }
    }

    /// Puts `frame` in place of the driver's frame and hands the old one back.
    pub fn replace_frame(&mut self, frame: FrameBuffer) -> (previous: FrameBuffer)
        ensures
            final(self).frame() == frame@,
            previous@ == old(self).frame(),
            final(self).depth() == old(self).depth(),
            final(self).lines() == old(self).lines(),
            final(self).log() == old(self).log(),
    {
        let mut frame = frame;
        core::mem::swap(&mut self.data, &mut frame);
        frame
    }

    /// The driver's frame.
    pub fn frame_buffer(&self) -> (frame: &FrameBuffer)
        ensures
            frame@ == self.frame(),
    {
        &self.data
    }

    /// The brightness schedule.
    pub fn brightness(&self) -> (brightness: &Brightness)
        ensures
            brightness.depth() == self.depth(),
    {
        &self.brightness
    }

    /// The lines to the panel.
    pub fn pins(&self) -> (pins: &PINS)
        ensures
            *pins == self.lines(),
    {
        self.pins.pins()
    }
}

} // verus!
