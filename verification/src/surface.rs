//! Render targets: one-shot surfaces and the swapchain that hands them out.
//!
//! A surface receives one display list and is then presented and thrown
//! away.  Drawing replaces whatever the surface held before; replaying one
//! display list onto any number of surfaces leaves the same command
//! sequence on each.

use vstd::prelude::*;

use crate::display_list::CommandV;
use crate::display_list::DisplayList;
use crate::error::Error;

verus! {

/// A one-shot render target: the command sequence drawn onto it, if any.
#[derive(Debug)]
pub struct Surface {
    pub contents: Option<DisplayList>,
}

impl View for Surface {
    type V = Option<Seq<CommandV>>;

    open spec fn view(&self) -> Option<Seq<CommandV>> {
        match self.contents {
            Some(d) => Some(d@),
            None => None,
        }
    }
}

impl Surface {
    /// Draw a display list onto the surface, replacing any prior contents;
    /// the same display list may be drawn onto many surfaces.
    pub fn draw_display_list(&mut self, display_list: &DisplayList) -> (r: Result<(), Error>)
        ensures
            r is Ok,
            final(self)@ == Some(display_list@),
    {
        self.contents = Some(display_list.clone());
        Ok(())
    }

    /// Present the surface to the window system, consuming it: a surface
    /// is drawn to and presented at most once.
    pub fn present(self) -> (r: Result<(), Error>)
        ensures
            r is Ok,
    {
        Ok(())
    }
}

/// Replaying one display list onto two surfaces leaves the same command
/// sequence on both.
pub proof fn lemma_replay_deterministic(a: Surface, b: Surface, d: DisplayList)
    requires
        a@ == Some(d@),
        b@ == Some(d@),
    ensures
        a@ == b@,
{
}

/// A window-system swapchain: created once per window surface, it hands
/// out a fresh surface for each frame and survives resizes.
#[derive(Debug)]
pub struct VkSwapChain {
    /// The window-system surface handle the swapchain was created from.
    pub surface_handle: u64,
}

impl VkSwapChain {
    /// Acquire the next surface to render to.  At the engine this may
    /// block on window-system backpressure, so it should be called as late
    /// in a frame as possible; the surface handed out is fresh and empty.
    pub fn acquire_next_surface_new(&mut self) -> (r: Option<Surface>)
        ensures
            *final(self) == *old(self),
            r matches Some(s) && s@ is None,
    {
        Some(Surface { contents: None })
    }
}

} // verus!
