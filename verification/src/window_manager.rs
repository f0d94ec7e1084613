//! The ordered set of windows whose most recent member is shown alone.

use vstd::prelude::*;
use crate::layout::{LayoutError, LayoutRequest, fullscreen_layout, fullscreen_requests};
use crate::output::Output;
use crate::shell::{WindowElement, live, mark_dead, marked_dead, retain_alive};

verus! {

/// The windows of the shell in the order of their insertion. The last one is
/// the active window. A handle may occur more than once.
#[derive(Debug)]
pub struct WindowManager {
    windows: Vec<WindowElement>,
}

/// What a refresh in fullscreen mode answers for the windows `pruned` and the
/// registered `outputs`: the layout goes by the first output.
pub open spec fn fullscreen_refresh(pruned: Seq<WindowElement>, outputs: Seq<Output>, fullscreen: bool) -> Result<Seq<LayoutRequest>, LayoutError> {
    if outputs.len() == 0 {
        Err(LayoutError::NoOutput)
    } else {
        match outputs[0].spec_geometry() {
            Some(geometry) => Ok(fullscreen_requests(pruned, geometry, fullscreen)),
            None => Err(LayoutError::NoGeometry),
        }
    }
}

/// `r` holds what `model` holds.
pub open spec fn is_layout_result(r: Result<Vec<LayoutRequest>, LayoutError>, model: Result<Seq<LayoutRequest>, LayoutError>) -> bool {
    match r {
        Ok(requests) => model == Ok::<Seq<LayoutRequest>, LayoutError>(requests@),
        Err(e) => model == Err::<Seq<LayoutRequest>, LayoutError>(e),
    }
}

impl View for WindowManager {
    type V = Seq<WindowElement>;

    closed spec fn view(&self) -> Seq<WindowElement> {
        self.windows@
    }
}

impl WindowManager {
    /// The active window: the most recently inserted one, if there is any.
    pub open spec fn spec_active(self) -> Option<WindowElement> {
        if self@.len() == 0 {
            None
        } else {
            Some(self@.last())
        }
    }

    /// A set without windows.
    pub fn new() -> (r: WindowManager)
        ensures
            r@ == Seq::<WindowElement>::empty(),
    {
        WindowManager { windows: Vec::new() }
    }

    pub fn is_empty(&self) -> (r: bool)
        ensures
            r == (self@.len() == 0),
    {
        self.windows.len() == 0
    }

    /// Appends `window`, which becomes the active window. A handle that is
    /// already in the set is appended once more.
    pub fn insert_window(&mut self, window: WindowElement)
        ensures
            final(self)@ == old(self)@.push(window),
            final(self).spec_active() == Some(window),
    {
        self.windows.push(window);
    }

    /// The active window: the most recently inserted one, if there is any.
    pub fn get_active_window(&self) -> (r: Option<&WindowElement>)
        ensures
            match r {
                Some(w) => self.spec_active() == Some(*w),
                None => self.spec_active().is_none(),
            },
    {
        let n: usize = self.windows.len();
        if n == 0 {
            None
        } else {
            Some(&self.windows[n - 1])
        }
    }

    /// The window of identity `id` was closed: the liveness flag of every
    /// entry with that identity goes down. The entries stay until the set is pruned.
    pub fn mark_dead(&mut self, id: u64)
        ensures
            final(self)@ == marked_dead(old(self)@, id),
    {
        mark_dead(&mut self.windows, id);
    }

    /// Removes every window whose liveness flag is down. The others keep their order.
    pub fn remove_dead_window(&mut self)
        ensures
            final(self)@ == live(old(self)@),
            forall|i: int| 0 <= i < final(self)@.len() ==> (#[trigger] final(self)@[i]).alive,
    {
        self.windows = retain_alive(&self.windows);
    }

    /// Removes the dead windows, then lays the others out on the first of
    /// `outputs`: the active window covers that output and is told so, every
    /// other window is hidden. The requests come most recent window first.
    /// Without an output, or with a first output without geometry, the set is
    /// pruned all the same and no request is made.
    pub fn refresh_geometry(&mut self, outputs: &Vec<Output>) -> (r: Result<Vec<LayoutRequest>, LayoutError>)
        ensures
            final(self)@ == live(old(self)@),
            is_layout_result(r, fullscreen_refresh(final(self)@, outputs@, true)),
    {
        self.remove_dead_window();
        if outputs.len() == 0 {
            return Err(LayoutError::NoOutput);
        }
        match outputs[0].geometry() {
            Some(geometry) => Ok(fullscreen_layout(&self.windows, geometry, true)),
            None => Err(LayoutError::NoGeometry),
        }
    }
}

} // verus!
