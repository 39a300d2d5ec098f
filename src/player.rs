//! The per-frame decisions of playback: which area to clear before a frame,
//! whether the frame can be drawn, and what to remember of it.
use vstd::prelude::*;

use crate::render::{
    clear_area, clear_bytes, draw_bytes, draw_frame, Area, DisposalMethod, Frame,
};

verus! {

/// What playback remembers of the frame drawn last.
#[derive(Clone, Copy, Debug, PartialEq, Eq, Structural)]
pub struct LastFrame {
    pub area: Area,
    pub dispose: DisposalMethod,
}

/// Why a frame was not drawn.
#[derive(Clone, Copy, Debug, PartialEq, Eq, Structural)]
pub enum RenderError {
    /// Interlaced frames are not supported.
    Interlaced,
}

/// The bytes to write for one frame, each part followed by a flush.
#[derive(Debug)]
pub struct FrameOutput {
    /// The blanking of the previous frame's area, where its disposal asks for it.
    pub clear: Option<Vec<u8>>,
    /// The drawing of the frame, or why it cannot be drawn.
    pub draw: Result<Vec<u8>, RenderError>,
}

/// Playback state: the single slot holding the frame drawn last.
#[derive(Clone, Copy, Debug)]
pub struct Player {
    pub last: Option<LastFrame>,
}

impl Player {
    /// The area to blank before the next frame: the last frame's, where its
    /// disposal method restores the background.
    pub open spec fn clear_spec(self) -> Option<Area> {
        match self.last {
            Some(l) => if l.dispose == DisposalMethod::Background {
                Some(l.area)
            } else {
                None
            },
            None => None,
        }
    }

    /// The state after `f` has been drawn.
    pub open spec fn after_spec(self, f: Frame) -> Player {
        Player { last: Some(LastFrame { area: f.area_spec(), dispose: f.dispose }) }
    }

    /// Playback before any frame.
    pub fn new() -> (r: Player)
        ensures
            r.last.is_none(),
    {
        Player { last: None }
    }

    /// The area to blank before the next frame, if any.
    pub fn pending_clear(&self) -> (r: Option<Area>)
        ensures
            r == self.clear_spec(),
    {
        match self.last {
            Some(l) => if l.dispose == DisposalMethod::Background {
                Some(l.area)
            } else {
                None
            },
            None => None,
        }
    }

    /// Handles the next frame: blanks the last frame's area where its disposal
    /// asks for it, then draws `frame` and remembers it, unless it is
    /// interlaced, in which case nothing is drawn and nothing remembered.
    pub fn next_frame(&mut self, frame: &Frame) -> (r: FrameOutput)
        requires
            frame.drawable(),
        ensures
            match old(self).clear_spec() {
                Some(a) => r.clear.is_some() && r.clear.unwrap()@ == clear_bytes(a),
                None => r.clear.is_none(),
            },
            frame.interlaced ==> r.draw == Err::<Vec<u8>, RenderError>(RenderError::Interlaced)
                && *final(self) == *old(self),
            !frame.interlaced ==> r.draw.is_ok() && r.draw.unwrap()@ == draw_bytes(*frame)
                && *final(self) == old(self).after_spec(*frame),
    {
        let clear = match self.pending_clear() {
            Some(a) => Some(clear_area(a.left, a.top, a.width, a.height)),
            None => None,
        };
        if frame.interlaced {
            return FrameOutput { clear, draw: Err(RenderError::Interlaced) };
        }
        let draw = draw_frame(frame);
        self.last = Some(LastFrame { area: frame.area(), dispose: frame.dispose });
        FrameOutput { clear, draw: Ok(draw) }
    }
}

/// After a frame whose disposal method is not `Background` has been drawn,
/// nothing is blanked before the next frame.
pub proof fn no_clear_unless_background(p: Player, f: Frame)
    requires
        f.dispose != DisposalMethod::Background,
    ensures
        p.after_spec(f).clear_spec().is_none(),
{
}

/// After a frame whose disposal method is `Background` has been drawn, exactly
/// one area is blanked before the next frame: the frame's own rectangle.
pub proof fn clear_after_background(p: Player, f: Frame)
    requires
        f.dispose == DisposalMethod::Background,
    ensures
        p.after_spec(f).clear_spec() == Some(
            Area { left: f.left, top: f.top, width: f.width, height: f.height },
        ),
{
}

} // verus!
