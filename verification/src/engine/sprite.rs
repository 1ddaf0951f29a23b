//! What the moving pieces of a scene tell each other.

use vstd::prelude::*;

verus! {

/// Where a piece is and how large, as the other pieces see it.
#[derive(Debug, Clone, Copy)]
pub struct SpriteInfo {
    pub name: &'static str,
    pub x: i8,
    pub y: i8,
    pub width: u8,
    pub height: u8,
}

/// What one piece tells the others.
#[derive(Debug, Clone, Copy)]
pub enum Event {
    /// The piece moved to where the info says.
    Move(SpriteInfo),
    /// The piece was run into.
    Collision(SpriteInfo),
    /// The time of day changed.
    TimeUpdate { hour: u8, minute: u8 },
    /// The piece is asked to jump.
    JumpTrigger,
}

/// The right or lower edge of a piece: its position plus its extent, the extent
/// read as a signed byte.
pub open spec fn far_edge(position: i8, extent: u8) -> int {
    position + (extent as i8)
}

/// Whether the rectangles of two pieces overlap.
pub open spec fn overlaps(a: SpriteInfo, b: SpriteInfo) -> bool {
    &&& a.x < far_edge(b.x, b.width)
    &&& far_edge(a.x, a.width) > b.x
    &&& a.y < far_edge(b.y, b.height)
    &&& far_edge(a.y, a.height) > b.y
}

/// Whether two names are the same text.
///
/// Not verified: the comparison is `str`'s own `==`, which holds exactly when
/// both are the same sequence of characters.
#[verifier::external_body]
pub(crate) fn same_name(a: &str, b: &str) -> (same: bool)
    ensures
        same == (a@ == b@),
{
    a == b
}

/// The sum of a position and an extent read as a signed byte.
fn edge(position: i8, extent: u8) -> (sum: i16)
    ensures
        sum == far_edge(position, extent),
{
    let signed = #[verifier::truncate]
    (extent as i8);
    position as i16 + signed as i16
}

impl SpriteInfo {
    /// Whether this piece and `sprite` overlap.
    pub fn collided_with(&self, sprite: &SpriteInfo) -> (hit: bool)
        ensures
            hit == overlaps(*self, *sprite),
    {
        (self.x as i16) < edge(sprite.x, sprite.width) && edge(self.x, self.width) > sprite.x as i16
            && (self.y as i16) < edge(sprite.y, sprite.height) && edge(self.y, self.height)
            > sprite.y as i16
    }
}

} // verus!
