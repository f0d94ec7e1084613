//! Window handles and the per-output fullscreen slot.

use vstd::prelude::*;
use crate::geometry::{Point, Rectangle};
use crate::layout::{LayoutError, LayoutRequest, fits_i32};
use crate::output::Output;
use crate::window_manager::{WindowManager, fullscreen_refresh};

verus! {

/// A handle to a client's top-level window: its identity, its liveness flag and
/// the bounding box it currently reports, relative to its own origin.
#[derive(Clone, Copy, Debug, PartialEq, Eq, Structural)]
pub struct WindowElement {
    pub id: u64,
    pub alive: bool,
    pub bbox: Rectangle,
}

/// One paintable unit of a window.
#[derive(Clone, Copy, Debug, PartialEq, Eq, Structural)]
pub enum WindowRenderElement {
    /// The content of the window `window`, its origin at `location`.
    Window { window: u64, location: Point },
    /// A solid fill that decorates the window `window`, covering `geometry`.
    Decoration { window: u64, geometry: Rectangle },
}

impl WindowElement {
    /// The liveness flag of the handle.
    pub fn alive(&self) -> (r: bool)
        ensures
            r == self.alive,
    {
        self.alive
    }

    /// The bounding box the window reports, relative to its own origin.
    pub fn bbox(&self) -> (r: Rectangle)
        ensures
            r == self.bbox,
    {
        self.bbox
    }

    /// What painting the window with its origin at `location` takes.
    pub open spec fn spec_render_elements(self, location: Point) -> Seq<WindowRenderElement> {
        seq![WindowRenderElement::Window { window: self.id, location }]
    }

    /// The paintable units of the window, with its origin at `location`.
    pub fn render_elements(&self, location: Point) -> (r: Vec<WindowRenderElement>)
        ensures
            r@ == self.spec_render_elements(location),
    {
        let mut elements: Vec<WindowRenderElement> = Vec::new();
        elements.push(WindowRenderElement::Window { window: self.id, location });
        assert(elements@ =~= self.spec_render_elements(location));
        elements
    }
}

/// A window that is shown: the handle, and where its origin lies in the
/// logical space.
#[derive(Clone, Copy, Debug, PartialEq, Eq, Structural)]
pub struct MappedWindow {
    pub window: WindowElement,
    pub location: Point,
}

/// The windows of `windows` whose liveness flag is up, in their order.
pub open spec fn live(windows: Seq<WindowElement>) -> Seq<WindowElement> {
    windows.filter(|w: WindowElement| w.alive)
}

/// `live` of a sequence grown by one window: the window is kept if its flag is up.
pub proof fn lemma_live_push(windows: Seq<WindowElement>, w: WindowElement)
    ensures
        live(windows.push(w)) == if w.alive { live(windows).push(w) } else { live(windows) },
{
    reveal(Seq::filter);
    assert(windows.push(w).drop_last() =~= windows);
}

/// Every window of `live(windows)` has its flag up, and a sequence of live
/// windows is its own `live`.
pub proof fn lemma_live_alive(windows: Seq<WindowElement>)
    ensures
        forall|i: int| 0 <= i < live(windows).len() ==> (#[trigger] live(windows)[i]).alive,
        (forall|i: int| 0 <= i < windows.len() ==> (#[trigger] windows[i]).alive) ==> live(windows) == windows,
    decreases windows.len(),
{
    reveal(Seq::filter);
    if windows.len() > 0 {
        lemma_live_alive(windows.drop_last());
        if forall|i: int| 0 <= i < windows.len() ==> (#[trigger] windows[i]).alive {
            assert forall|i: int| 0 <= i < windows.drop_last().len() implies (#[trigger] windows.drop_last()[i]).alive by {
                assert(windows.drop_last()[i] == windows[i]);
            }
            assert(windows.last().alive);
            assert(windows.drop_last().push(windows.last()) =~= windows);
        }
    }
}

/// Pruning a pruned set changes nothing.
pub proof fn lemma_live_idempotent(windows: Seq<WindowElement>)
    ensures
        live(live(windows)) == live(windows),
{
    lemma_live_alive(windows);
    lemma_live_alive(live(windows));
}

/// The windows of `windows` whose liveness flag is up, in their order.
pub fn retain_alive(windows: &Vec<WindowElement>) -> (r: Vec<WindowElement>)
    ensures
        r@ == live(windows@),
        forall|i: int| 0 <= i < r@.len() ==> (#[trigger] r@[i]).alive,
{
    let n: usize = windows.len();
    let mut kept: Vec<WindowElement> = Vec::new();
    let mut i: usize = 0;
    proof {
        reveal(Seq::filter);
        assert(windows@.take(0) =~= Seq::<WindowElement>::empty());
    }
    while i < n
        invariant
            n == windows@.len(),
            0 <= i <= n,
            kept@ == live(windows@.take(i as int)),
        decreases n - i,
    {
        let w: WindowElement = windows[i];
        proof {
            lemma_live_push(windows@.take(i as int), w);
            assert(windows@.take(i as int).push(w) =~= windows@.take(i + 1));
        }
        if w.alive() {
            kept.push(w);
        }
        i = i + 1;
    }
    proof {
        assert(windows@.take(n as int) =~= windows@);
        lemma_live_alive(windows@);
    }
    kept
}

/// The window `w` after the window of identity `id` was closed: its
/// liveness flag is down if it is that window.
pub open spec fn closed(w: WindowElement, id: u64) -> WindowElement {
    if w.id == id {
        WindowElement { alive: false, ..w }
    } else {
        w
    }
}

/// `windows` after the window of identity `id` was closed.
pub open spec fn marked_dead(windows: Seq<WindowElement>, id: u64) -> Seq<WindowElement> {
    Seq::new(windows.len(), |i: int| closed(windows[i], id))
}

/// Lowers the liveness flag of every window of identity `id` in `windows`.
pub fn mark_dead(windows: &mut Vec<WindowElement>, id: u64)
    ensures
        final(windows)@ == marked_dead(old(windows)@, id),
{
    let n: usize = windows.len();
    let mut i: usize = 0;
    while i < n
        invariant
            n == old(windows)@.len(),
            windows@.len() == n,
            0 <= i <= n,
            forall|j: int| 0 <= j < i ==> #[trigger] windows@[j] == closed(old(windows)@[j], id),
            forall|j: int| i <= j < n ==> #[trigger] windows@[j] == old(windows)@[j],
        decreases n - i,
    {
        let w: WindowElement = windows[i];
        if w.id == id {
            windows.set(i, WindowElement { id: w.id, alive: false, bbox: w.bbox });
        }
        i = i + 1;
    }
    assert(windows@ =~= marked_dead(old(windows)@, id));
}

/// The fullscreen slot of an output: the window, if any, that overrides the
/// normal stack of that output.
#[derive(Clone, Copy, Debug, PartialEq, Eq, Structural)]
pub struct FullscreenSurface {
    pub window: Option<WindowElement>,
}

impl FullscreenSurface {
    /// What `get` reports: the window in the slot, unless its liveness flag is down.
    pub open spec fn live_window(self) -> Option<WindowElement> {
        match self.window {
            Some(w) => if w.alive { Some(w) } else { None },
            None => None,
        }
    }

    /// An empty slot.
    pub fn new() -> (r: FullscreenSurface)
        ensures
            r.window.is_none(),
    {
        FullscreenSurface { window: None }
    }

    /// Puts `window` in the slot, in place of what was there.
    pub fn set(&mut self, window: WindowElement)
        ensures
            final(self).window == Some(window),
    {
        self.window = Some(window);
    }

    /// The window in the slot. Its liveness flag is read again on every call: a
    /// window whose flag is down is taken out of the slot and not reported.
    pub fn get(&mut self) -> (r: Option<WindowElement>)
        ensures
            r == old(self).live_window(),
            final(self).window == old(self).live_window(),
    {
        let dead = match self.window {
            Some(w) => !w.alive(),
            None => false,
        };
        if dead {
            self.window = None;
        }
        self.window
    }

    /// Empties the slot and hands back what was in it, alive or not.
    pub fn clear(&mut self) -> (r: Option<WindowElement>)
        ensures
            r == old(self).window,
            final(self).window.is_none(),
    {
        let taken = self.window;
        self.window = None;
        taken
    }

    /// Lowers the liveness flag of the window in the slot, if its identity is `id`.
    pub fn mark_dead(&mut self, id: u64)
        ensures
            final(self).window == match old(self).window {
                Some(w) => Some(closed(w, id)),
                None => None,
            },
    {
        match self.window {
            Some(w) => {
                if w.id == id {
                    self.window = Some(WindowElement { id: w.id, alive: false, bbox: w.bbox });
                }
            },
            None => {},
        }
    }
}

/// Where output `i` begins when the outputs stand in a row from the origin
/// rightwards: the logical widths of the outputs before it, added up.
pub open spec fn row_offset(outputs: Seq<Output>, i: int) -> int
    decreases i,
{
    if i <= 0 {
        0
    } else {
        row_offset(outputs, i - 1) + outputs[i - 1].spec_logical_size().w
    }
}

/// Every output of the row begins at a value of `i32`.
pub open spec fn row_fits(outputs: Seq<Output>) -> bool {
    forall|i: int| 0 <= i < outputs.len() ==> fits_i32(#[trigger] row_offset(outputs, i))
}

/// The outputs moved into a row: each keeps all but its location. It says
/// what the row is where `row_fits` holds.
pub open spec fn outputs_in_row(outputs: Seq<Output>) -> Seq<Output> {
    Seq::new(
        outputs.len(),
        |i: int| Output { location: Point { x: row_offset(outputs, i) as i32, y: 0 }, ..outputs[i] },
    )
}

/// The point that places the window: the corner of its bounding box, moved
/// by the location of the window. It lies in `zone`.
pub open spec fn origin_in(zone: Rectangle, m: MappedWindow) -> bool {
    &&& zone.loc.x <= m.window.bbox.loc.x + m.location.x < zone.right()
    &&& zone.loc.y <= m.window.bbox.loc.y + m.location.y < zone.bottom()
}

/// The window lies on none of `outputs`: no output with a geometry covers
/// the point that places it.
pub open spec fn is_orphan(m: MappedWindow, outputs: Seq<Output>) -> bool {
    forall|j: int|
        0 <= j < outputs.len() ==> match (#[trigger] outputs[j]).spec_geometry() {
            Some(zone) => !origin_in(zone, m),
            None => true,
        }
}

/// The windows of `space` that lie on none of `outputs`, in their order.
pub open spec fn orphans(space: Seq<MappedWindow>, outputs: Seq<Output>) -> Seq<MappedWindow> {
    space.filter(|m: MappedWindow| is_orphan(m, outputs))
}

/// `orphans` of a sequence grown by one window.
proof fn lemma_orphans_push(space: Seq<MappedWindow>, m: MappedWindow, outputs: Seq<Output>)
    ensures
        orphans(space.push(m), outputs) == if is_orphan(m, outputs) {
            orphans(space, outputs).push(m)
        } else {
            orphans(space, outputs)
        },
{
    reveal(Seq::filter);
    assert(space.push(m).drop_last() =~= space);
}

/// The outputs in a row from the origin rightwards, in their order: output
/// `i` begins where the logical widths of the outputs before it end, at
/// height 0. An output without usable mode takes no room.
pub fn arrange_outputs(outputs: &Vec<Output>) -> (r: Result<Vec<Output>, LayoutError>)
    ensures
        match r {
            Ok(row) => row_fits(outputs@) && row@ == outputs_in_row(outputs@),
            Err(e) => e == LayoutError::Overflow && !row_fits(outputs@),
        },
{
    let n: usize = outputs.len();
    let mut row: Vec<Output> = Vec::new();
    let mut offset: i64 = 0;
    let mut i: usize = 0;
    while i < n
        invariant
            n == outputs@.len(),
            0 <= i <= n,
            offset == row_offset(outputs@, i as int),
            0 <= offset,
            i > 0 ==> offset <= i32::MAX + 0x8000_0000,
            row@.len() == i,
            forall|j: int| 0 <= j < i ==> fits_i32(#[trigger] row_offset(outputs@, j)),
            forall|j: int| 0 <= j < i ==> #[trigger] row@[j] == outputs_in_row(outputs@)[j],
        decreases n - i,
    {
        if offset > i32::MAX as i64 {
            return Err(LayoutError::Overflow);
        }
        let output: Output = outputs[i];
        let width: i32 = output.logical_size().w;
        row.push(
            Output {
                location: Point { x: offset as i32, y: 0 },
                mode: output.mode,
                transform: output.transform,
                scale: output.scale,
                fullscreen: output.fullscreen,
            },
        );
        offset = offset + width as i64;
        i = i + 1;
    }
    assert(row@ =~= outputs_in_row(outputs@));
    Ok(row)
}

/// Whether the window lies on none of `outputs`.
pub fn is_orphaned(m: &MappedWindow, outputs: &Vec<Output>) -> (r: bool)
    ensures
        r == is_orphan(*m, outputs@),
{
    let x: i64 = m.window.bbox.loc.x as i64 + m.location.x as i64;
    let y: i64 = m.window.bbox.loc.y as i64 + m.location.y as i64;
    let n: usize = outputs.len();
    let mut j: usize = 0;
    while j < n
        invariant
            n == outputs@.len(),
            0 <= j <= n,
            x == m.window.bbox.loc.x + m.location.x,
            y == m.window.bbox.loc.y + m.location.y,
            forall|k: int|
                0 <= k < j ==> match (#[trigger] outputs@[k]).spec_geometry() {
                    Some(zone) => !origin_in(zone, *m),
                    None => true,
                },
        decreases n - j,
    {
        match outputs[j].geometry() {
            Some(zone) => {
                if zone.loc.x as i64 <= x && x < zone.loc.x as i64 + zone.size.w as i64 && zone.loc.y as i64 <= y
                    && y < zone.loc.y as i64 + zone.size.h as i64 {
                    assert(origin_in(outputs@[j as int].spec_geometry().unwrap(), *m));
                    return false;
                }
            },
            None => {},
        }
        j = j + 1;
    }
    true
}

/// The windows of `space` that lie on none of `outputs`, in their order.
pub fn orphaned_windows(space: &Vec<MappedWindow>, outputs: &Vec<Output>) -> (r: Vec<MappedWindow>)
    ensures
        r@ == orphans(space@, outputs@),
{
    let n: usize = space.len();
    let mut found: Vec<MappedWindow> = Vec::new();
    let mut i: usize = 0;
    proof {
        reveal(Seq::filter);
        assert(space@.take(0) =~= Seq::<MappedWindow>::empty());
    }
    while i < n
        invariant
            n == space@.len(),
            0 <= i <= n,
            found@ == orphans(space@.take(i as int), outputs@),
        decreases n - i,
    {
        let m: MappedWindow = space[i];
        proof {
            lemma_orphans_push(space@.take(i as int), m, outputs@);
            assert(space@.take(i as int).push(m) =~= space@.take(i + 1));
        }
        if is_orphaned(&m, outputs) {
            found.push(m);
        }
        i = i + 1;
    }
    assert(space@.take(n as int) =~= space@);
    found
}

/// Calls `rand::distributions::Uniform::new(low, high)` and draws one sample
/// of it from `rand::thread_rng()`. Trusted: the sample is at least `low` and
/// below `high`. Which value it is depends on chance.
#[verifier::external_body]
fn sample_uniform(low: i32, high: i32) -> (r: i32)
    requires
        low < high,
    ensures
        low <= r < high,
{
    rand::distributions::Distribution::sample(
        &rand::distributions::Uniform::new(low, high),
        &mut rand::thread_rng(),
    )
}

/// A window can be placed in `area`: the area is not empty and ends within
/// the range of `i32`.
pub open spec fn placeable(area: Rectangle) -> bool {
    &&& area.size.w > 0
    &&& area.size.h > 0
    &&& fits_i32(area.right())
    &&& fits_i32(area.bottom())
}

/// A place for a window that has none: a point of `area`, picked at random.
/// No place is found where none can be.
pub fn place_new_window(area: Rectangle) -> (r: Option<Point>)
    ensures
        r.is_some() <==> placeable(area),
        r matches Some(p) ==> area.spec_contains(p),
{
    let right: i64 = area.loc.x as i64 + area.size.w as i64;
    let bottom: i64 = area.loc.y as i64 + area.size.h as i64;
    if area.size.w <= 0 || area.size.h <= 0 || right > i32::MAX as i64 || bottom > i32::MAX as i64 {
        return None;
    }
    let x: i32 = sample_uniform(area.loc.x, right as i32);
    let y: i32 = sample_uniform(area.loc.y, bottom as i32);
    Some(Point { x, y })
}

/// What a change of the outputs leads to.
#[derive(Debug)]
pub struct Fixup {
    /// The outputs, moved into a row.
    pub outputs: Vec<Output>,
    /// The windows that lie on no output any more and have to be placed anew.
    pub orphaned: Vec<MappedWindow>,
    /// The layout of the windows of the set on the first output.
    pub requests: Vec<LayoutRequest>,
}

/// What `fixup_positions` answers for the outputs `outputs`, the shown
/// windows `space` and the pruned set `pruned`.
pub open spec fn fixup_result(outputs: Seq<Output>, space: Seq<MappedWindow>, pruned: Seq<WindowElement>) -> Result<
    (Seq<Output>, Seq<MappedWindow>, Seq<LayoutRequest>),
    LayoutError,
> {
    if !row_fits(outputs) {
        Err(LayoutError::Overflow)
    } else {
        match fullscreen_refresh(pruned, outputs_in_row(outputs), true) {
            Ok(requests) => Ok((outputs_in_row(outputs), orphans(space, outputs_in_row(outputs)), requests)),
            Err(e) => Err(e),
        }
    }
}

/// After a change of the outputs: moves the outputs into a row, finds the
/// windows of `space` that lie on none of them, and lays the set of
/// `window_manager` out anew, pruned. Where the row does not fit, nothing is
/// done to the set.
pub fn fixup_positions(outputs: &Vec<Output>, space: &Vec<MappedWindow>, window_manager: &mut WindowManager) -> (r:
    Result<Fixup, LayoutError>)
    ensures
        final(window_manager)@ == if row_fits(outputs@) {
            live(old(window_manager)@)
        } else {
            old(window_manager)@
        },
        match r {
            Ok(fixup) => fixup_result(outputs@, space@, final(window_manager)@) == Ok::<
                (Seq<Output>, Seq<MappedWindow>, Seq<LayoutRequest>),
                LayoutError,
            >((fixup.outputs@, fixup.orphaned@, fixup.requests@)),
            Err(e) => fixup_result(outputs@, space@, final(window_manager)@) == Err::<
                (Seq<Output>, Seq<MappedWindow>, Seq<LayoutRequest>),
                LayoutError,
            >(e),
        },
{
    let row: Vec<Output> = match arrange_outputs(outputs) {
        Ok(row) => row,
        Err(e) => {
            return Err(e);
        },
    };
    let orphaned: Vec<MappedWindow> = orphaned_windows(space, &row);
    match window_manager.refresh_geometry(&row) {
        Ok(requests) => Ok(Fixup { outputs: row, orphaned, requests }),
        Err(e) => Err(e),
    }
}

} // verus!
