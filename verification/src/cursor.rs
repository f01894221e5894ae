//! The player cursor: a fixed-point position, its collision rectangle, the
//! sprite it submits to a frame, and the audio feedback it requests when it
//! actually moves.

use vstd::prelude::*;
use crate::fixed::{Fixed, FixedRect, FixedVec2, IntVec2};

verus! {

/// Side of the cursor's collision rectangle (one super-tile), in raw
/// fixed-point units: 16 pixels.
pub const TILE_SIZE_RAW: i32 = 4096;

/// Fire-and-forget sink for audio requests. The core only ever asks for the
/// one cursor-movement clip, so the model records how many requests were
/// issued; the mixer back end drains them.
#[derive(Clone, Copy, Debug, PartialEq, Eq, Structural)]
pub struct AudioSink {
    pub plays: u64,
}

impl AudioSink {
    /// A sink with no requests issued yet.
    pub fn new() -> (r: AudioSink)
        ensures
            r.plays == 0,
    {
        AudioSink { plays: 0 }
    }

    /// Requests the movement clip once.
    pub fn play(&mut self)
        requires
            old(self).plays < u64::MAX,
        ensures
            final(self).plays == old(self).plays + 1,
    {
        self.plays = self.plays + 1;
    }
}

/// One frame's sprite submissions: the pixel positions handed to the
/// compositor, in submission order.
#[derive(Debug)]
pub struct Frame {
    pub sprites: Vec<IntVec2>,
}

impl Frame {
    /// A frame with no sprites submitted yet.
    pub fn new() -> (r: Frame)
        ensures
            r.sprites@ == Seq::<IntVec2>::empty(),
    {
        Frame { sprites: Vec::new() }
    }
}

/// The player-controlled cursor.
#[derive(Clone, Copy, Debug, PartialEq, Eq, Structural)]
pub struct PlayerCursor {
    pub pos: FixedVec2,
}

impl PlayerCursor {
    /// A cursor anchored at `pos`.
    pub fn new(pos: FixedVec2) -> (r: PlayerCursor)
        ensures
            r.pos == pos,
    {
        PlayerCursor { pos }
    }

    /// Moves the cursor to `pos`.
    pub fn set_pos(&mut self, pos: FixedVec2)
        ensures
            final(self).pos == pos,
    {
        self.pos = pos;
    }

    /// Adds `delta` to the position. A nonzero delta means the move was
    /// accepted, and exactly one audio request is issued; a zero delta is
    /// silent. Callers reject a move at the field boundary before calling
    /// this, so a blocked move plays nothing.
    pub fn move_by(&mut self, delta: FixedVec2, audio: &mut AudioSink)
        requires
            i32::MIN <= old(self).pos.x.raw + delta.x.raw <= i32::MAX,
            i32::MIN <= old(self).pos.y.raw + delta.y.raw <= i32::MAX,
            old(audio).plays < u64::MAX,
        ensures
            final(self).pos.x.raw == old(self).pos.x.raw + delta.x.raw,
            final(self).pos.y.raw == old(self).pos.y.raw + delta.y.raw,
            final(audio).plays == old(audio).plays + (
            if delta.x.raw != 0 || delta.y.raw != 0 {
                1int
            } else {
                0int
            }),
    {
        self.pos = self.pos.add(delta);
        if delta.x.raw != 0 || delta.y.raw != 0 {
            audio.play();
        }
    }

    /// Submits the cursor sprite at its rounded pixel position.
    pub fn show(&self, frame: &mut Frame)
        ensures
            final(frame).sprites@ == old(frame).sprites@.push(
                IntVec2 {
                    x: crate::fixed::round_raw(self.pos.x.raw as int) as i32,
                    y: crate::fixed::round_raw(self.pos.y.raw as int) as i32,
                },
            ),
    {
        let sprite_pos = self.pos.round();
        frame.sprites.push(sprite_pos);
    }

    /// The axis-aligned bounding rectangle used for boundary checks: one
    /// super-tile anchored at the cursor's position.
    pub fn collision_rect(&self) -> (r: FixedRect)
        ensures
            r.pos == self.pos,
            r.size.x.raw == TILE_SIZE_RAW,
            r.size.y.raw == TILE_SIZE_RAW,
    {
        FixedRect {
            pos: self.pos,
            size: FixedVec2 { x: Fixed { raw: TILE_SIZE_RAW }, y: Fixed { raw: TILE_SIZE_RAW } },
        }
    }
}

} // verus!
