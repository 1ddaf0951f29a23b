//! The figure that stands on the ground and jumps against the blocks.

use vstd::prelude::*;
use crate::display::draw_rgb_bitmap;
use crate::display::fill_rect;
use crate::display::rgb888_of;
use crate::display::with_sprite;
use crate::engine::game::Direction;
use crate::engine::sprite::same_name;
use crate::engine::sprite::Event;
use crate::engine::sprite::SpriteInfo;
use crate::framebuffer::filled;
use crate::framebuffer::stored;
use crate::framebuffer::FrameBuffer;
use crate::framebuffer::Rgb;
use crate::mario::gfx::assets::MARIO_IDLE;
use crate::mario::gfx::assets::MARIO_IDLE_SIZE;
use crate::mario::gfx::assets::MARIO_JUMP;
use crate::mario::gfx::assets::MARIO_JUMP_SIZE;
use crate::mario::gfx::assets::SKY_COLOR;
use crate::mario::gfx::block::elapsed;

verus! {

/// Pixels the figure moves per animation frame while it jumps.
pub const MARIO_PACE: u8 = 3;

/// How far the figure rises in a jump.
pub const MARIO_JUMP_HEIGHT: u8 = 14;

/// The row just below the figure's feet when it stands on the ground.
pub const GROUND_LEVEL: i32 = 56;

/// Milliseconds between two animation frames of a jump.
pub const JUMP_INTERVAL_MS: u64 = 50;

/// Milliseconds that must have passed since the last animation frame before a
/// new jump starts.
pub const JUMP_PAUSE_MS: u64 = 500;

/// The largest distance from the origin at which the figure can be placed.
pub const REACH: i32 = 0x4000_0000;

/// What the figure is doing.
#[derive(PartialEq, Eq, Clone, Copy, Debug, Structural)]
pub enum State {
    /// The figure stands.
    Idle,
    /// The figure is in the air.
    Jumping,
}

/// The figure as its contracts see it.
pub struct MarioView {
    pub x: int,
    pub y: int,
    pub width: int,
    pub height: int,
    pub direction: Direction,
    pub last_x: int,
    pub last_y: int,
    pub sprite: Seq<u16>,
    pub last_millis: int,
    pub state: State,
    pub last_state: State,
}

/// The name under which the figure speaks.
pub open spec fn mario_name() -> Seq<char> {
    "MARIO"@
}

/// What the others see of the figure.
pub open spec fn info_of(mario: MarioView) -> SpriteInfo {
    SpriteInfo {
        name: "MARIO",
        x: mario.x as i8,
        y: mario.y as i8,
        width: mario.width as u8,
        height: mario.height as u8,
    }
}

/// The figure standing at (`x`, `y`), as it is at the start.
pub open spec fn standing(x: int, y: int) -> MarioView {
    MarioView {
        x,
        y,
        width: MARIO_IDLE_SIZE[0] as int,
        height: MARIO_IDLE_SIZE[1] as int,
        direction: Direction::Up,
        last_x: x,
        last_y: y,
        sprite: MARIO_IDLE@,
        last_millis: 0,
        state: State::Idle,
        last_state: State::Idle,
    }
}

/// The sky, as it is kept in a frame.
pub open spec fn sky() -> Rgb {
    stored(rgb888_of(SKY_COLOR))
}

/// Whether a jump starts: the seconds have reached a multiple of ten, the figure
/// is not in the air, and it has rested long enough.
pub open spec fn launches(mario: MarioView, second: int, now: int) -> bool {
    second % 10 == 0 && mario.state != State::Jumping && elapsed(mario.last_millis, now)
        > JUMP_PAUSE_MS
}

/// The figure as it leaves the ground.
pub open spec fn launched(mario: MarioView) -> MarioView {
    MarioView {
        last_state: mario.state,
        state: State::Jumping,
        width: MARIO_JUMP_SIZE[0] as int,
        height: MARIO_JUMP_SIZE[1] as int,
        sprite: MARIO_JUMP@,
        direction: Direction::Up,
        last_y: mario.y,
        last_x: mario.x,
        ..mario
    }
}

/// Whether `incoming` tells the figure that it ran into another piece.
pub open spec fn bumped(incoming: Option<Event>) -> bool {
    incoming matches Some(Event::Collision(other)) && other.name@ != mario_name()
}

/// The figure after it heard what the others said: a figure in the air that ran
/// into something turns back down.
pub open spec fn heard(mario: MarioView, incoming: Option<Event>) -> MarioView {
    if bumped(incoming) && mario.state == State::Jumping {
        MarioView { direction: Direction::Down, ..mario }
    } else {
        mario
    }
}

/// The figure before it is animated and drawn: launched if a jump starts, and
/// turned back if it ran into something.
pub open spec fn prepared(mario: MarioView, second: int, now: int, incoming: Option<Event>) -> MarioView {
    heard(
        if launches(mario, second, now) {
            launched(mario)
        } else {
            mario
        },
        incoming,
    )
}

/// Whether a frame of the jump is due.
pub open spec fn frame_due(mario: MarioView, now: int) -> bool {
    mario.state == State::Jumping && elapsed(mario.last_millis, now) >= JUMP_INTERVAL_MS
}

/// Where a figure in the air is after one frame.
pub open spec fn moved_y(mario: MarioView) -> int {
    if mario.direction == Direction::Up {
        mario.y - MARIO_PACE
    } else {
        mario.y + MARIO_PACE
    }
}

/// Where a figure in the air is heading after one frame: it turns back down
/// once it has risen by `MARIO_JUMP_HEIGHT`.
pub open spec fn moved_direction(mario: MarioView) -> Direction {
    if mario.last_y - moved_y(mario) >= MARIO_JUMP_HEIGHT && mario.direction == Direction::Up {
        Direction::Down
    } else {
        mario.direction
    }
}

/// Whether a figure in the air reaches the ground with this frame.
pub open spec fn lands(mario: MarioView) -> bool {
    moved_y(mario) + mario.height >= GROUND_LEVEL && moved_direction(mario) == Direction::Down
}

/// The figure after one frame of a jump at `now`.
pub open spec fn jumped(mario: MarioView, now: int) -> MarioView {
    if lands(mario) {
        MarioView {
            y: GROUND_LEVEL - MARIO_IDLE_SIZE[1],
            direction: Direction::Down,
            last_state: State::Jumping,
            state: State::Idle,
            width: MARIO_IDLE_SIZE[0] as int,
            height: MARIO_IDLE_SIZE[1] as int,
            sprite: MARIO_IDLE@,
            last_millis: now,
            ..mario
        }
    } else {
        MarioView {
            y: moved_y(mario),
            direction: moved_direction(mario),
            last_millis: now,
            ..mario
        }
    }
}

/// The figure after an update.
pub open spec fn updated(mario: MarioView, second: int, now: int, incoming: Option<Event>) -> MarioView {
    let ready = prepared(mario, second, now, incoming);
    if frame_due(ready, now) {
        jumped(ready, now)
    } else {
        ready
    }
}

/// What the figure tells the others in an update: where it is, after each frame
/// of a jump.
pub open spec fn said(mario: MarioView, second: int, now: int, incoming: Option<Event>) -> Option<
    Event,
> {
    let ready = prepared(mario, second, now, incoming);
    if frame_due(ready, now) {
        Some(Event::Move(info_of(MarioView { y: moved_y(ready), ..ready })))
    } else {
        None
    }
}

/// `grid` after a frame of a jump was drawn: the figure is wiped out where it
/// was and drawn where it is; a figure that lands is wiped out again, together
/// with what the last frame left above the ground, and drawn standing.
pub open spec fn with_jump(grid: Seq<Seq<Rgb>>, mario: MarioView) -> Seq<Seq<Rgb>> {
    let wiped = filled(grid, mario.x, mario.y, mario.width, mario.height, sky());
    let drawn = with_sprite(
        wiped,
        mario.x,
        moved_y(mario),
        mario.sprite,
        mario.width,
        mario.height,
    );
    if lands(mario) {
        let ground = GROUND_LEVEL - MARIO_IDLE_SIZE[1];
        let cleared = filled(
            filled(drawn, mario.x, ground, mario.width, mario.height, sky()),
            mario.x,
            ground + MARIO_PACE,
            MARIO_IDLE_SIZE[0] as int,
            MARIO_IDLE_SIZE[1] as int,
            sky(),
        );
        with_sprite(
            cleared,
            mario.x,
            ground,
            MARIO_IDLE@,
            MARIO_IDLE_SIZE[0] as int,
            MARIO_IDLE_SIZE[1] as int,
        )
    } else {
        drawn
    }
}

/// `grid` after an update of the figure was drawn on it.
pub open spec fn with_mario(
    grid: Seq<Seq<Rgb>>,
    mario: MarioView,
    second: int,
    now: int,
    incoming: Option<Event>,
) -> Seq<Seq<Rgb>> {
    let ready = prepared(mario, second, now, incoming);
    let start = if launches(mario, second, now) {
        filled(
            grid,
            mario.x,
            mario.y,
            MARIO_IDLE_SIZE[0] as int,
            MARIO_IDLE_SIZE[1] as int,
            sky(),
        )
    } else {
        grid
    };
    if ready.state == State::Idle {
        with_sprite(
            start,
            ready.x,
            ready.y,
            MARIO_IDLE@,
            MARIO_IDLE_SIZE[0] as int,
            MARIO_IDLE_SIZE[1] as int,
        )
    } else if frame_due(ready, now) {
        with_jump(start, ready)
    } else {
        with_sprite(start, ready.x, ready.y, ready.sprite, ready.width, ready.height)
    }
}

/// The figure of the clock face.
pub struct Mario {
    x: i32,
    y: i32,
    width: i32,
    height: i32,
    direction: Direction,
    last_x: i32,
    last_y: i32,
    sprite: &'static [u16],
    last_millis: u64,
    state: State,
    last_state: State,
}

impl Mario {
    /// The figure as its contracts see it.
    pub closed spec fn view(&self) -> MarioView {
        MarioView {
            x: self.x as int,
            y: self.y as int,
            width: self.width as int,
            height: self.height as int,
            direction: self.direction,
            last_x: self.last_x as int,
            last_y: self.last_y as int,
            sprite: self.sprite@,
            last_millis: self.last_millis as int,
            state: self.state,
            last_state: self.last_state,
        }
    }

    /// Whether the figure is where its jumps can have taken it, with the size
    /// and the sprite of what it is doing. Every figure that `new` made and
    /// `update` changed is well formed.
    pub open spec fn well_formed(&self) -> bool {
        let mario = self@;
        &&& -REACH <= mario.x <= REACH
        &&& (mario.direction == Direction::Up || mario.direction == Direction::Down)
        &&& match mario.state {
            State::Idle => {
                &&& -REACH <= mario.y <= REACH
                &&& mario.width == MARIO_IDLE_SIZE[0]
                &&& mario.height == MARIO_IDLE_SIZE[1]
                &&& mario.sprite == MARIO_IDLE@
            },
            State::Jumping => {
                &&& -REACH <= mario.last_y <= REACH
                &&& mario.width == MARIO_JUMP_SIZE[0]
                &&& mario.height == MARIO_JUMP_SIZE[1]
                &&& mario.sprite == MARIO_JUMP@
                &&& mario.last_y - MARIO_JUMP_HEIGHT - MARIO_PACE < mario.y
                &&& mario.y <= mario.last_y || mario.y < GROUND_LEVEL - mario.height
                &&& mario.direction == Direction::Up ==> mario.last_y - mario.y < MARIO_JUMP_HEIGHT
            },
        }
    }

    /// The figure standing with its upper left corner at (`x`, `y`).
    pub fn new(x: i32, y: i32) -> (mario: Self)
        requires
            -REACH <= x <= REACH,
            -REACH <= y <= REACH,
        ensures
            mario@ == standing(x as int, y as int),
            mario.well_formed(),
    {
        let sprite: &'static [u16] = &MARIO_IDLE;
        Mario {
            x,
            y,
            width: MARIO_IDLE_SIZE[0] as i32,
            height: MARIO_IDLE_SIZE[1] as i32,
            direction: Direction::Up,
            last_x: x,
            last_y: y,
            sprite,
            last_millis: 0,
            state: State::Idle,
            last_state: State::Idle,
        }
    }

    /// Brings a figure that is in the air to a stand: it is wiped out where it
    /// is and takes the size and the sprite of the standing figure.
    fn idle(&mut self, fb: &mut FrameBuffer)
        requires
            0 <= old(self)@.width,
            0 <= old(self)@.height,
        ensures
            final(self)@ == if old(self)@.state != State::Idle {
                MarioView {
                    last_state: old(self)@.state,
                    state: State::Idle,
                    width: MARIO_IDLE_SIZE[0] as int,
                    height: MARIO_IDLE_SIZE[1] as int,
                    sprite: MARIO_IDLE@,
                    ..old(self)@
                }
            } else {
                old(self)@
            },
            final(fb)@ == if old(self)@.state != State::Idle {
                filled(
                    old(fb)@,
                    old(self)@.x,
                    old(self)@.y,
                    old(self)@.width,
                    old(self)@.height,
                    sky(),
                )
            } else {
                old(fb)@
            },
    {
        if self.state != State::Idle {
            self.last_state = self.state;
            self.state = State::Idle;
            fill_rect(fb, self.x, self.y, self.width as u32, self.height as u32, SKY_COLOR);
            self.width = MARIO_IDLE_SIZE[0] as i32;
            self.height = MARIO_IDLE_SIZE[1] as i32;
            self.sprite = &MARIO_IDLE;
        }
    }

    /// Takes the figure through one frame. At `second`s that are a multiple of
    /// ten a rested figure leaves the ground; a figure in the air that ran into
    /// something turns back; the figure is moved if a frame of its jump is due,
    /// and drawn on the frame. Returns what the figure has to tell the others.
    pub fn update(
        &mut self,
        fb: &mut FrameBuffer,
        second: u32,
        current_millis: u64,
        incoming: Option<Event>,
    ) -> (outgoing: Option<Event>)
        requires
            old(self).well_formed(),
        ensures
            final(self)@ == updated(old(self)@, second as int, current_millis as int, incoming),
            outgoing == said(old(self)@, second as int, current_millis as int, incoming),
            final(fb)@ == with_mario(
                old(fb)@,
                old(self)@,
                second as int,
                current_millis as int,
                incoming,
            ),
            final(self).well_formed(),
    {
        let mut outgoing = None;
        if second % 10 == 0 {
            if self.state != State::Jumping && (current_millis >= self.last_millis
                && current_millis - self.last_millis > JUMP_PAUSE_MS) {
                self.last_state = self.state;
                self.state = State::Jumping;
                fill_rect(
                    fb,
                    self.x,
                    self.y,
                    MARIO_IDLE_SIZE[0] as u32,
                    MARIO_IDLE_SIZE[1] as u32,
                    SKY_COLOR,
                );
                self.width = MARIO_JUMP_SIZE[0] as i32;
                self.height = MARIO_JUMP_SIZE[1] as i32;
                self.sprite = &MARIO_JUMP;
                self.direction = Direction::Up;
                self.last_y = self.y;
                self.last_x = self.x;
            }
        }
        if let Some(Event::Collision(t)) = incoming {
            if !same_name(t.name, self.name()) {
                if self.state == State::Jumping {
                    self.direction = Direction::Down;
                }
            }
        }
        assert(self@ == prepared(old(self)@, second as int, current_millis as int, incoming));
        if self.state == State::Idle {
            draw_rgb_bitmap(
                fb,
                self.x,
                self.y,
                MARIO_IDLE.as_slice(),
                MARIO_IDLE_SIZE[0] as i32,
                MARIO_IDLE_SIZE[1] as i32,
            );
        } else if self.state == State::Jumping {
            if current_millis >= self.last_millis && current_millis - self.last_millis
                >= JUMP_INTERVAL_MS {
                fill_rect(fb, self.x, self.y, self.width as u32, self.height as u32, SKY_COLOR);
                if self.direction == Direction::Up {
                    self.y -= MARIO_PACE as i32;
                } else {
                    self.y += MARIO_PACE as i32;
                }
                draw_rgb_bitmap(fb, self.x, self.y, self.sprite, self.width, self.height);
                outgoing = Some(Event::Move(self.get_info()));
                if (self.last_y - self.y) >= MARIO_JUMP_HEIGHT as i32 && self.direction
                    == Direction::Up {
                    self.direction = Direction::Down;
                }
                if self.y + self.height >= GROUND_LEVEL && self.direction == Direction::Down {
                    self.y = GROUND_LEVEL - MARIO_IDLE_SIZE[1] as i32;
                    self.idle(fb);
                    fill_rect(
                        fb,
                        self.x,
                        self.y + MARIO_PACE as i32,
                        self.width as u32,
                        self.height as u32,
                        SKY_COLOR,
                    );
                    draw_rgb_bitmap(
                        fb,
                        self.x,
                        self.y,
                        MARIO_IDLE.as_slice(),
                        MARIO_IDLE_SIZE[0] as i32,
                        MARIO_IDLE_SIZE[1] as i32,
                    );
                }
                self.last_millis = current_millis;
            } else {
                draw_rgb_bitmap(fb, self.x, self.y, self.sprite, self.width, self.height);
            }
        }
        outgoing
    }

    /// What the others see of the figure.
    pub fn get_info(&self) -> (info: SpriteInfo)
        ensures
            info == info_of(self@),
    {
        SpriteInfo {
            name: self.name(),
            x: self.x(),
            y: self.y(),
            width: self.width(),
            height: self.height(),
        }
    }

    /// The column of the figure's left edge, as the others see it.
    pub fn x(&self) -> (x: i8)
        ensures
            x == self@.x as i8,
    {
        #[verifier::truncate]
        (self.x as i8)
    }

    /// The row of the figure's upper edge, as the others see it.
    pub fn y(&self) -> (y: i8)
        ensures
            y == self@.y as i8,
    {
        #[verifier::truncate]
        (self.y as i8)
    }

    /// The width of the figure, as the others see it.
    pub fn width(&self) -> (width: u8)
        ensures
            width == self@.width as u8,
    {
        #[verifier::truncate]
        (self.width as u8)
    }

    /// The height of the figure, as the others see it.
    pub fn height(&self) -> (height: u8)
        ensures
            height == self@.height as u8,
    {
        #[verifier::truncate]
        (self.height as u8)
    }

    /// The name under which the figure speaks.
    pub fn name(&self) -> (name: &'static str)
        ensures
            name@ == mario_name(),
            name == "MARIO",
    {
        "MARIO"
    }
}

} // verus!
