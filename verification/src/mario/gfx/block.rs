//! The block that shows a number and jumps when it is hit from below.

use vstd::prelude::*;
use vstd::string::StringExecFns;
use vstd::utf8::encode_utf8;
use crate::display::draw_rgb_bitmap;
use crate::display::print_text;
use crate::display::rgb888_of;
use crate::display::with_sprite;
use crate::display::with_text_on;
use crate::engine::font::GFXfont;
use crate::engine::game::Direction;
use crate::engine::sprite::overlaps;
use crate::engine::sprite::same_name;
use crate::engine::sprite::Event;
use crate::engine::sprite::SpriteInfo;
use crate::framebuffer::stored;
use crate::framebuffer::FrameBuffer;
use crate::framebuffer::Rgb;
use crate::mario::gfx::assets::BLACK;
use crate::mario::gfx::assets::BLOCK;

verus! {

/// Pixels the block moves per animation frame when hit.
pub const MOVE_PACE: i32 = 2;

/// How far the block rises when hit.
pub const MAX_MOVE_HEIGHT: i32 = 4;

/// Milliseconds between two animation frames.
pub const ANIMATION_INTERVAL_MS: u64 = 60;

/// The largest distance from the origin at which a block can be placed.
pub const REACH: i32 = 0x4000_0000;

/// A text of at most two bytes, kept in a `heapless::String`. The verifier
/// sees nothing of it but what `short_text` names.
#[verifier::external_body]
pub struct ShortText {
    inner: heapless::String<2>,
}

/// The characters that a short text holds.
pub uninterp spec fn short_text(text: ShortText) -> Seq<char>;

/// `heapless::String::new`: a string without characters.
#[verifier::external_body]
fn text_new() -> (text: ShortText)
    ensures
        short_text(text) == Seq::<char>::empty(),
{
    ShortText { inner: heapless::String::new() }
}

/// `heapless::String::clear`: removes all characters.
#[verifier::external_body]
fn text_clear(text: &mut ShortText)
    ensures
        short_text(*final(text)) == Seq::<char>::empty(),
{
    text.inner.clear()
}

/// `heapless::String::push_str`: appends `more` if its bytes still fit into the
/// two bytes of the string, and leaves the string as it is if they do not.
/// Returns whether they fitted.
#[verifier::external_body]
fn text_push_str(text: &mut ShortText, more: &str) -> (fitted: bool)
    ensures
        fitted == (encode_utf8(short_text(*old(text))).len() + encode_utf8(more@).len() <= 2),
        fitted ==> short_text(*final(text)) == short_text(*old(text)) + more@,
        !fitted ==> short_text(*final(text)) == short_text(*old(text)),
{
    text.inner.push_str(more).is_ok()
}

/// `heapless::String::as_str`: the characters of the string.
#[verifier::external_body]
fn text_as_str(text: &ShortText) -> (chars: &str)
    ensures
        chars@ == short_text(*text),
{
    text.inner.as_str()
}

/// `heapless::String::len`: the length of the string in bytes.
#[verifier::external_body]
fn text_len(text: &ShortText) -> (bytes: usize)
    ensures
        bytes == encode_utf8(short_text(*text)).len(),
{
    text.inner.len()
}

/// What the block is doing.
#[derive(PartialEq, Eq, Clone, Copy, Debug, Structural)]
pub enum State {
    /// The block rests.
    Idle,
    /// The block rises and falls back after it was hit.
    Hit,
}

/// A block as its contracts see it.
pub struct BlockView {
    pub x: int,
    pub y: int,
    pub width: int,
    pub height: int,
    pub state: State,
    pub direction: Direction,
    pub start_y: int,
    pub last_animation_millis: int,
    pub text: Seq<char>,
}

/// A block resting at (`x`, `y`) and showing nothing, as it is at the start.
pub open spec fn resting(x: int, y: int) -> BlockView {
    BlockView {
        x,
        y,
        width: 19,
        height: 19,
        state: State::Idle,
        direction: Direction::Up,
        start_y: y,
        last_animation_millis: 0,
        text: Seq::empty(),
    }
}

/// The character that shows the digit `d`.
pub open spec fn digit_char(d: int) -> char {
    if d == 0 {
        '0'
    } else if d == 1 {
        '1'
    } else if d == 2 {
        '2'
    } else if d == 3 {
        '3'
    } else if d == 4 {
        '4'
    } else if d == 5 {
        '5'
    } else if d == 6 {
        '6'
    } else if d == 7 {
        '7'
    } else if d == 8 {
        '8'
    } else {
        '9'
    }
}

/// What a block shows for `value`: two digits, or nothing where two digits are
/// not enough.
pub open spec fn two_digits(value: int) -> Seq<char> {
    if 0 <= value < 100 {
        seq![digit_char(value / 10), digit_char(value % 10)]
    } else {
        Seq::empty()
    }
}

/// The text of a block after it was given `text`: the text if it fits into two
/// bytes, else nothing.
pub open spec fn fitting(text: Seq<char>) -> Seq<char> {
    if encode_utf8(text).len() <= 2 {
        text
    } else {
        Seq::empty()
    }
}

/// The name under which blocks speak.
pub open spec fn block_name() -> Seq<char> {
    "Block"@
}

/// What the others see of a block.
pub open spec fn info_of(block: BlockView) -> SpriteInfo {
    SpriteInfo {
        name: "Block",
        x: block.x as i8,
        y: block.y as i8,
        width: block.width as u8,
        height: block.height as u8,
    }
}

/// Whether `incoming` tells a block that another piece moved into it.
pub open spec fn is_hit_by(block: BlockView, incoming: Option<Event>) -> bool {
    incoming matches Some(Event::Move(mover)) && mover.name@ != block_name() && overlaps(
        info_of(block),
        mover,
    )
}

/// A block after it was hit at `now`: a resting block starts to rise, a block
/// that is already on its way goes on.
pub open spec fn struck(block: BlockView, now: int) -> BlockView {
    if block.state != State::Hit {
        BlockView {
            state: State::Hit,
            direction: Direction::Up,
            last_animation_millis: now,
            ..block
        }
    } else {
        block
    }
}

/// The milliseconds from `then` to `now`; a clock that went back counts as no
/// time.
pub open spec fn elapsed(then: int, now: int) -> int {
    if now >= then {
        now - then
    } else {
        0
    }
}

/// A block after one frame of its animation at `now`. A resting block sits at
/// its place. A block that was hit moves `MOVE_PACE` pixels per
/// `ANIMATION_INTERVAL_MS`: up until it has risen by `MAX_MOVE_HEIGHT`, then
/// down until it is back, where it comes to rest.
pub open spec fn animated(block: BlockView, now: int) -> BlockView {
    match block.state {
        State::Idle => BlockView { y: block.start_y, ..block },
        State::Hit => if elapsed(block.last_animation_millis, now) >= ANIMATION_INTERVAL_MS {
            let moved = if block.direction == Direction::Up {
                block.y - MOVE_PACE
            } else {
                block.y + MOVE_PACE
            };
            let direction = if block.direction == Direction::Up && block.start_y - moved
                >= MAX_MOVE_HEIGHT {
                Direction::Down
            } else {
                block.direction
            };
            if direction == Direction::Down && moved >= block.start_y {
                BlockView {
                    y: block.start_y,
                    state: State::Idle,
                    direction,
                    last_animation_millis: now,
                    ..block
                }
            } else {
                BlockView { y: moved, direction, last_animation_millis: now, ..block }
            }
        } else {
            block
        },
    }
}

/// A block after an update: struck if `incoming` says so, showing `value`, and
/// one frame further in its animation.
pub open spec fn updated(block: BlockView, value: int, now: int, incoming: Option<Event>) -> BlockView {
    let hit = if is_hit_by(block, incoming) {
        struck(block, now)
    } else {
        block
    };
    animated(BlockView { text: two_digits(value), ..hit }, now)
}

/// What a block tells the others in an update: that it was run into, if it was.
pub open spec fn said(block: BlockView, incoming: Option<Event>) -> Option<Event> {
    if is_hit_by(block, incoming) {
        Some(Event::Collision(info_of(block)))
    } else {
        None
    }
}

/// Where the text of a block starts: roughly centred for one character and for
/// two.
pub open spec fn text_x(block: BlockView) -> int {
    if encode_utf8(block.text).len() == 1 {
        block.x + 6
    } else {
        block.x + 2
    }
}

/// The base line of the text of a block.
pub open spec fn text_y(block: BlockView) -> int {
    block.y + 12
}

/// `grid` with a block drawn on it: the sprite, and on it the text in black.
pub open spec fn with_block(grid: Seq<Seq<Rgb>>, font: GFXfont, block: BlockView) -> Seq<Seq<Rgb>> {
    with_text_on(
        with_sprite(grid, block.x, block.y, BLOCK@, block.width, block.height),
        font,
        block.text,
        text_x(block),
        text_y(block),
        block.text.len(),
        stored(rgb888_of(BLACK)),
    )
}

/// The text of one decimal digit.
fn digit_str(d: u32) -> (text: &'static str)
    requires
        d < 10,
    ensures
        text@ == seq![digit_char(d as int)],
        encode_utf8(text@).len() == 1,
{
    proof {
        reveal_strlit("0");
        reveal_strlit("1");
        reveal_strlit("2");
        reveal_strlit("3");
        reveal_strlit("4");
        reveal_strlit("5");
        reveal_strlit("6");
        reveal_strlit("7");
        reveal_strlit("8");
        reveal_strlit("9");
    }
    let text = if d == 0 {
        "0"
    } else if d == 1 {
        "1"
    } else if d == 2 {
        "2"
    } else if d == 3 {
        "3"
    } else if d == 4 {
        "4"
    } else if d == 5 {
        "5"
    } else if d == 6 {
        "6"
    } else if d == 7 {
        "7"
    } else if d == 8 {
        "8"
    } else {
        "9"
    };
    proof {
        lemma_one_ascii_char(text@);
    }
    text
}

/// A text of ASCII characters has one byte per character.
proof fn lemma_one_ascii_char(text: Seq<char>)
    requires
        vstd::utf8::is_ascii_chars(text),
    ensures
        encode_utf8(text).len() == text.len(),
{
    vstd::utf8::is_ascii_chars_encode_utf8(text);
}

/// A block of the clock face.
pub struct Block {
    x: i32,
    y: i32,
    width: i32,
    height: i32,
    state: State,
    direction: Direction,
    start_y: i32,
    last_animation_millis: u64,
    text: ShortText,
}

impl Block {
    /// The block as its contracts see it.
    pub closed spec fn view(&self) -> BlockView {
        BlockView {
            x: self.x as int,
            y: self.y as int,
            width: self.width as int,
            height: self.height as int,
            state: self.state,
            direction: self.direction,
            start_y: self.start_y as int,
            last_animation_millis: self.last_animation_millis as int,
            text: short_text(self.text),
        }
    }

    /// Whether the block is where its animation can have taken it: at its place
    /// while it rests, and at most a few pixels above it while it moves. Every
    /// block that `new` made and `update` changed is well formed.
    pub open spec fn well_formed(&self) -> bool {
        let block = self@;
        &&& -REACH <= block.x <= REACH
        &&& -REACH <= block.start_y <= REACH
        &&& block.width == 19
        &&& block.height == 19
        &&& (block.direction == Direction::Up || block.direction == Direction::Down)
        &&& match block.state {
            State::Idle => block.y == block.start_y,
            State::Hit => if block.direction == Direction::Up {
                block.start_y - MAX_MOVE_HEIGHT < block.y <= block.start_y
            } else {
                block.start_y - MAX_MOVE_HEIGHT - MOVE_PACE < block.y < block.start_y
            },
        }
    }

    /// A resting block with its upper left corner at (`x`, `y`), showing
    /// nothing yet.
    pub fn new(x: i32, y: i32) -> (block: Self)
        requires
            -REACH <= x <= REACH,
            -REACH <= y <= REACH,
        ensures
            block@ == resting(x as int, y as int),
            block.well_formed(),
    {
        Block {
            x,
            y,
            width: 19,
            height: 19,
            state: State::Idle,
            direction: Direction::Up,
            start_y: y,
            last_animation_millis: 0,
            text: text_new(),
        }
    }

    /// Sets the text that the block shows. A text of more than two bytes does
    /// not fit, and the block then shows nothing.
    pub fn set_text(&mut self, text: &str)
        ensures
            final(self)@ == (BlockView { text: fitting(text@), ..old(self)@ }),
    {
        text_clear(&mut self.text);
        proof {
            assert(encode_utf8(Seq::<char>::empty()).len() == 0);
            assert(Seq::<char>::empty() + text@ =~= text@);
        }
        let _ = text_push_str(&mut self.text, text);
    }

    /// Shows `value` with two digits, or nothing if it has more.
    fn set_value(&mut self, value: u32)
        ensures
            final(self)@ == (BlockView { text: two_digits(value as int), ..old(self)@ }),
    {
        if value < 100 {
            let mut formatted = String::new();
            formatted.append(digit_str(value / 10));
            formatted.append(digit_str(value % 10));
            proof {
                assert(formatted@ =~= two_digits(value as int));
                lemma_one_ascii_char(formatted@);
            }
            self.set_text(formatted.as_str());
        } else {
            text_clear(&mut self.text);
        }
    }

    /// Brings a moving block to rest at its place.
    fn set_idle_state(&mut self)
        ensures
            final(self)@ == if old(self)@.state != State::Idle {
                BlockView { state: State::Idle, y: old(self)@.start_y, ..old(self)@ }
            } else {
                old(self)@
            },
    {
        if self.state != State::Idle {
            self.state = State::Idle;
            self.y = self.start_y;
        }
    }

    /// Starts the animation of a block that was hit.
    fn trigger_hit_animation(&mut self, current_millis: u64)
        ensures
            final(self)@ == struck(old(self)@, current_millis as int),
    {
        if self.state != State::Hit {
            self.state = State::Hit;
            self.direction = Direction::Up;
            self.last_animation_millis = current_millis;
        }
    }

    /// Writes the text of the block onto the block.
    fn draw_text_on_block(&self, fb: &mut FrameBuffer, font: &GFXfont)
        requires
            font.well_formed(),
            self.well_formed(),
        ensures
            final(fb)@ == with_text_on(
                old(fb)@,
                *font,
                self@.text,
                text_x(self@),
                text_y(self@),
                self@.text.len(),
                stored(rgb888_of(BLACK)),
            ),
    {
        let text_x = if text_len(&self.text) == 1 {
            self.x + 6
        } else {
            self.x + 2
        };
        let text_y = self.y + 12;
        print_text(fb, font, text_as_str(&self.text), text_x, text_y, BLACK);
    }

    /// Takes the block through one frame: it reacts to what another piece told
    /// it, shows `current_value`, moves on in its animation and is drawn on the
    /// frame. Returns what the block has to tell the others.
    pub fn update(
        &mut self,
        fb: &mut FrameBuffer,
        font: &GFXfont,
        current_value: u32,
        current_millis: u64,
        incoming: Option<Event>,
    ) -> (outgoing: Option<Event>)
        requires
            old(self).well_formed(),
            font.well_formed(),
        ensures
            final(self)@ == updated(
                old(self)@,
                current_value as int,
                current_millis as int,
                incoming,
            ),
            outgoing == said(old(self)@, incoming),
            final(fb)@ == with_block(old(fb)@, *font, final(self)@),
            final(self).well_formed(),
    {
        let next_x = self.x;
        let mut next_y = self.y;
        let mut outgoing = None;
        if let Some(Event::Move(sprite_info)) = incoming {
            if !same_name(sprite_info.name, self.name()) && self.get_info().collided_with(
                &sprite_info,
            ) {
                let info = self.get_info();
                self.trigger_hit_animation(current_millis);
                outgoing = Some(Event::Collision(info));
            }
        }
        self.set_value(current_value);
        match self.state {
            State::Idle => {
                next_y = self.start_y;
            },
            State::Hit => {
                if current_millis >= self.last_animation_millis && current_millis
                    - self.last_animation_millis >= ANIMATION_INTERVAL_MS {
                    if self.direction == Direction::Up {
                        next_y -= MOVE_PACE;
                    } else {
                        next_y += MOVE_PACE;
                    }
                    if self.direction == Direction::Up && (self.start_y - next_y)
                        >= MAX_MOVE_HEIGHT {
                        self.direction = Direction::Down;
                    }
                    if self.direction == Direction::Down && next_y >= self.start_y {
                        next_y = self.start_y;
                        self.set_idle_state();
                    }
                    self.last_animation_millis = current_millis;
                } else {
                    next_y = self.y;
                }
            },
        }
        self.x = next_x;
        self.y = next_y;
        draw_rgb_bitmap(fb, self.x, self.y, BLOCK.as_slice(), self.width, self.height);
        self.draw_text_on_block(fb, font);
        outgoing
    }

    /// What the others see of the block.
    pub fn get_info(&self) -> (info: SpriteInfo)
        ensures
            info == info_of(self@),
    {
        SpriteInfo {
            name: self.name(),
            x: self.x(),
            y: self.y(),
            width: self.width(),
            height: self.height(),
        }
    }

    /// The column of the block's left edge, as the others see it.
    pub fn x(&self) -> (x: i8)
        ensures
            x == self@.x as i8,
    {
        #[verifier::truncate]
        (self.x as i8)
    }

    /// The row of the block's upper edge, as the others see it.
    pub fn y(&self) -> (y: i8)
        ensures
            y == self@.y as i8,
    {
        #[verifier::truncate]
        (self.y as i8)
    }

    /// The width of the block, as the others see it.
    pub fn width(&self) -> (width: u8)
        ensures
            width == self@.width as u8,
    {
        #[verifier::truncate]
        (self.width as u8)
    }

    /// The height of the block, as the others see it.
    pub fn height(&self) -> (height: u8)
        ensures
            height == self@.height as u8,
    {
        #[verifier::truncate]
        (self.height as u8)
    }

    /// The name under which blocks speak.
    pub fn name(&self) -> (name: &'static str)
        ensures
            name@ == block_name(),
            name == "Block",
    {
        "Block"
    }

    /// The text that the block shows.
    pub fn text(&self) -> (text: &str)
        ensures
            text@ == self@.text,
    {
        text_as_str(&self.text)
    }
}

} // verus!
