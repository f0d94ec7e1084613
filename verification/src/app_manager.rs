//! The ordered set of windows that is laid out by the current layout mode.

use vstd::prelude::*;
use crate::layout::{
    LayoutError, LayoutMode, LayoutRequest, OVERVIEW_PADDING, fullscreen_layout, overview_fits,
    overview_layout, overview_requests,
};
use crate::output::Output;
use crate::shell::{WindowElement, lemma_live_idempotent, live, mark_dead, marked_dead, retain_alive};
use crate::window_manager::{fullscreen_refresh, is_layout_result};

verus! {

/// The windows of the shell in the order of their insertion, and the mode
/// they are laid out in. The last window is the active one. A handle may
/// occur more than once.
#[derive(Debug)]
pub struct AppManger {
    apps: Vec<WindowElement>,
    mode: LayoutMode,
}

/// What a refresh in overview mode answers for the windows `pruned` and the
/// registered `outputs`: the layout goes by the first output, with the
/// default padding.
pub open spec fn overview_refresh(pruned: Seq<WindowElement>, outputs: Seq<Output>) -> Result<Seq<LayoutRequest>, LayoutError> {
    if outputs.len() == 0 {
        Err(LayoutError::NoOutput)
    } else {
        match outputs[0].spec_geometry() {
            Some(geometry) => if overview_fits(pruned.len() as int, geometry.size, OVERVIEW_PADDING as int) {
                Ok(overview_requests(pruned, geometry.size, OVERVIEW_PADDING as int))
            } else {
                Err(LayoutError::Overflow)
            },
            None => Err(LayoutError::NoGeometry),
        }
    }
}

/// What a refresh answers in the mode `mode`.
pub open spec fn refresh_result(mode: LayoutMode, pruned: Seq<WindowElement>, outputs: Seq<Output>) -> Result<Seq<LayoutRequest>, LayoutError> {
    match mode {
        LayoutMode::Fullscreen => fullscreen_refresh(pruned, outputs, false),
        LayoutMode::Overview => overview_refresh(pruned, outputs),
    }
}

/// A refresh that follows a refresh, with the same outputs and no change to
/// the set in between, prunes nothing and answers what the first one answered.
pub proof fn lemma_refresh_idempotent(mode: LayoutMode, windows: Seq<WindowElement>, outputs: Seq<Output>)
    ensures
        live(live(windows)) == live(windows),
        refresh_result(mode, live(live(windows)), outputs) == refresh_result(mode, live(windows), outputs),
        fullscreen_refresh(live(live(windows)), outputs, true) == fullscreen_refresh(live(windows), outputs, true),
{
    lemma_live_idempotent(windows);
}

impl AppManger {
    /// The windows of the set, oldest first.
    pub closed spec fn apps(self) -> Seq<WindowElement> {
        self.apps@
    }

    /// The mode the windows are laid out in.
    pub closed spec fn spec_mode(self) -> LayoutMode {
        self.mode
    }

    /// A set without windows, in overview mode.
    pub fn new() -> (r: AppManger)
        ensures
            r.apps() == Seq::<WindowElement>::empty(),
            r.spec_mode() == LayoutMode::Overview,
    {
        AppManger { apps: Vec::new(), mode: LayoutMode::Overview }
    }

    /// The mode the windows are laid out in.
    pub fn mode(&self) -> (r: LayoutMode)
        ensures
            r == self.spec_mode(),
    {
        self.mode
    }

    /// Changes the mode that the next refresh lays the windows out in.
    pub fn set_mode(&mut self, mode: LayoutMode)
        ensures
            final(self).spec_mode() == mode,
            final(self).apps() == old(self).apps(),
    {
        self.mode = mode;
    }

    /// Appends `window`, which becomes the active window. A handle that is
    /// already in the set is appended once more.
    pub fn insert_window(&mut self, window: WindowElement)
        ensures
            final(self).apps() == old(self).apps().push(window),
            final(self).spec_mode() == old(self).spec_mode(),
    {
        self.apps.push(window);
    }

    /// The window of identity `id` was closed: the liveness flag of every
    /// entry with that identity goes down. The entries stay until the set is pruned.
    pub fn mark_dead(&mut self, id: u64)
        ensures
            final(self).apps() == marked_dead(old(self).apps(), id),
            final(self).spec_mode() == old(self).spec_mode(),
    {
        mark_dead(&mut self.apps, id);
    }

    /// Removes every window whose liveness flag is down. The others keep their order.
    pub fn remove_dead_window(&mut self)
        ensures
            final(self).apps() == live(old(self).apps()),
            forall|i: int| 0 <= i < final(self).apps().len() ==> (#[trigger] final(self).apps()[i]).alive,
            final(self).spec_mode() == old(self).spec_mode(),
    {
        self.apps = retain_alive(&self.apps);
    }

    /// Removes the dead windows, then lays the others out on the first of
    /// `outputs` in the current mode. In fullscreen mode the active window
    /// covers that output and every other window is hidden. In overview mode
    /// every window gets the size of the output less the default padding on
    /// every side, the window at position `k` by recency at
    /// `(width * k + padding, padding)`. The requests come most recent window
    /// first. Where no layout can be made the set is pruned all the same and
    /// no request is made.
    pub fn refresh_geometry(&mut self, outputs: &Vec<Output>) -> (r: Result<Vec<LayoutRequest>, LayoutError>)
        ensures
            final(self).apps() == live(old(self).apps()),
            final(self).spec_mode() == old(self).spec_mode(),
            is_layout_result(r, refresh_result(final(self).spec_mode(), final(self).apps(), outputs@)),
    {
        self.remove_dead_window();
        if outputs.len() == 0 {
            return Err(LayoutError::NoOutput);
        }
        match outputs[0].geometry() {
            Some(geometry) => match self.mode {
                LayoutMode::Fullscreen => Ok(fullscreen_layout(&self.apps, geometry, false)),
                LayoutMode::Overview => overview_layout(&self.apps, geometry.size, OVERVIEW_PADDING),
            },
            None => Err(LayoutError::NoGeometry),
        }
    }
}

} // verus!
