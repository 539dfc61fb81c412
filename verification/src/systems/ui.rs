//! The FPS read-out.
//!
//! The system remembers the entity of the FPS text widget once the UI
//! finder has produced it, and refreshes the widget's text once every
//! twenty frames.

use vstd::prelude::*;

verus! {

/// True on the frames where the FPS read-out is refreshed: once every
/// twenty frames.
pub fn frame_is_fps_refresh(frame_number: u64) -> (refresh: bool)
    ensures
        refresh == (frame_number % 20 == 0),
{
    frame_number % 20 == 0
}

/// The per-frame system that keeps the FPS read-out current.
pub struct UISystem {
    /// The entity of the FPS text widget, once it has been found.
    pub fps_display: Option<usize>,
}

impl Default for UISystem {
    /// Start out with the widget not yet found.
    fn default() -> (out: UISystem)
        ensures
            out.fps_display is None,
    {
        UISystem { fps_display: Option::None }
    }
}

impl UISystem {
    /// One frame of the system. `found` is what the UI finder reports for
    /// the widget this frame; `text_exists` says whether the remembered
    /// entity still carries a text component. The result says whether the
    /// caller is to rewrite the widget's text with the sampled FPS now.
    pub fn run(&mut self, found: Option<usize>, text_exists: bool, frame_number: u64) -> (refresh:
        bool)
        ensures
            final(self).fps_display == if old(self).fps_display is None {
                found
            } else {
                old(self).fps_display
            },
            refresh == (final(self).fps_display is Some && text_exists && frame_number % 20 == 0),
    {
        if self.fps_display.is_none() {
            self.fps_display = found;
        }
        match self.fps_display {
            Option::Some(_) => text_exists && frame_is_fps_refresh(frame_number),
            Option::None => false,
        }
    }
}

} // verus!
