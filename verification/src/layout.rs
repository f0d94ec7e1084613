//! Target rectangles for the windows of an output, in the two layout modes.

use vstd::prelude::*;
use crate::geometry::{Point, Rectangle, Size};
use crate::shell::WindowElement;

verus! {

/// Units kept free on every side of the output in overview mode.
pub const OVERVIEW_PADDING: i32 = 200;

/// How the windows of an output are arranged.
#[derive(Clone, Copy, Debug, PartialEq, Eq, Structural)]
pub enum LayoutMode {
    /// The active window alone, at the full size of the output.
    Fullscreen,
    /// Every live window, side by side.
    Overview,
}

/// Why no layout could be made.
#[derive(Clone, Copy, Debug, PartialEq, Eq, Structural)]
pub enum LayoutError {
    /// No output is registered.
    NoOutput,
    /// The output that layout goes by has no usable mode, hence no geometry.
    NoGeometry,
    /// A coordinate or a dimension of the layout is beyond the range of `i32`.
    Overflow,
}

/// What is asked of one window.
#[derive(Clone, Copy, Debug, PartialEq, Eq, Structural)]
pub enum LayoutRequest {
    /// Resize the window to `geometry.size`, commit that, and show the window
    /// at `geometry.loc`, raised and active. With `fullscreen` the window is
    /// told that it covers the output.
    Show { window: u64, geometry: Rectangle, fullscreen: bool },
    /// Take the window out of the paintable space.
    Hide { window: u64 },
}

/// `v` is a value of `i32`.
pub open spec fn fits_i32(v: int) -> bool {
    i32::MIN <= v <= i32::MAX
}

/// The window at position `k` from the most recently inserted one, `k == 0`
/// being that one itself.
pub open spec fn by_recency(windows: Seq<WindowElement>, k: int) -> WindowElement {
    windows[windows.len() - 1 - k]
}

/// The request for the window `w` at position `k` by recency in fullscreen
/// mode: the most recent window covers `output` if it is alive, every other
/// window is hidden.
pub open spec fn fullscreen_request(k: int, w: WindowElement, output: Rectangle, fullscreen: bool) -> LayoutRequest {
    if k == 0 && w.alive {
        LayoutRequest::Show { window: w.id, geometry: output, fullscreen }
    } else {
        LayoutRequest::Hide { window: w.id }
    }
}

/// The requests of fullscreen mode, most recent window first.
pub open spec fn fullscreen_requests(windows: Seq<WindowElement>, output: Rectangle, fullscreen: bool) -> Seq<LayoutRequest> {
    Seq::new(windows.len(), |k: int| fullscreen_request(k, by_recency(windows, k), output, fullscreen))
}

/// The width every window gets in overview mode.
pub open spec fn overview_width(output: Size, padding: int) -> int {
    output.w - 2 * padding
}

/// The height every window gets in overview mode.
pub open spec fn overview_height(output: Size, padding: int) -> int {
    output.h - 2 * padding
}

/// The x coordinate of the window at position `k` by recency in overview mode.
pub open spec fn overview_x(k: int, output: Size, padding: int) -> int {
    overview_width(output, padding) * k + padding
}

/// The rectangle of the window at position `k` by recency in overview mode.
/// It says what the layout is where `overview_fits` holds.
pub open spec fn overview_geometry(k: int, output: Size, padding: int) -> Rectangle {
    Rectangle {
        loc: Point { x: overview_x(k, output, padding) as i32, y: padding as i32 },
        size: Size {
            w: overview_width(output, padding) as i32,
            h: overview_height(output, padding) as i32,
        },
    }
}

/// Every rectangle of an overview of `n` windows is made of values of `i32`.
pub open spec fn overview_fits(n: int, output: Size, padding: int) -> bool {
    n > 0 ==> {
        &&& fits_i32(overview_width(output, padding))
        &&& fits_i32(overview_height(output, padding))
        &&& fits_i32(overview_x(n - 1, output, padding))
    }
}

/// The request for the window `w` at position `k` by recency in overview
/// mode: a live window is shown in its rectangle, a dead one is hidden.
pub open spec fn overview_request(k: int, w: WindowElement, output: Size, padding: int) -> LayoutRequest {
    if w.alive {
        LayoutRequest::Show { window: w.id, geometry: overview_geometry(k, output, padding), fullscreen: false }
    } else {
        LayoutRequest::Hide { window: w.id }
    }
}

/// The requests of overview mode, most recent window first.
pub open spec fn overview_requests(windows: Seq<WindowElement>, output: Size, padding: int) -> Seq<LayoutRequest> {
    Seq::new(windows.len(), |k: int| overview_request(k, by_recency(windows, k), output, padding))
}

/// Between its ends a line stays; `overview_x` of a position below `n - 1` is a
/// value of `i32` when the last one is.
pub proof fn lemma_overview_x_fits(k: int, n: int, output: Size, padding: int)
    requires
        0 <= k < n,
        fits_i32(padding),
        fits_i32(overview_x(n - 1, output, padding)),
    ensures
        fits_i32(overview_x(k, output, padding)),
{
    let d = overview_width(output, padding);
    assert(d >= 0 ==> 0 <= d * k <= d * (n - 1)) by (nonlinear_arith)
        requires
            0 <= k <= n - 1,
    ;
    assert(d < 0 ==> d * (n - 1) <= d * k <= 0) by (nonlinear_arith)
        requires
            0 <= k <= n - 1,
    ;
}

/// In fullscreen mode, of a set of live windows that is not empty, the most
/// recently inserted window alone is shown: it covers the output, at the
/// origin of the output. Every other window is hidden.
pub proof fn lemma_fullscreen_shows_active_alone(windows: Seq<WindowElement>, output: Rectangle, fullscreen: bool)
    requires
        windows.len() > 0,
        forall|i: int| 0 <= i < windows.len() ==> (#[trigger] windows[i]).alive,
    ensures
        fullscreen_requests(windows, output, fullscreen).len() == windows.len(),
        fullscreen_requests(windows, output, fullscreen)[0] == (LayoutRequest::Show {
            window: windows.last().id,
            geometry: output,
            fullscreen,
        }),
        forall|k: int| 1 <= k < windows.len() ==> #[trigger] fullscreen_requests(windows, output, fullscreen)[k]
            == (LayoutRequest::Hide { window: by_recency(windows, k).id }),
{
}

/// In overview mode every live window is shown at the size of the output less
/// the padding on every side, and the requests name the windows from the most
/// recently inserted one to the oldest. With the default padding the size is
/// the width of the output less 400 by its height less 400.
pub proof fn lemma_overview_shows_all(windows: Seq<WindowElement>, output: Size, padding: int)
    requires
        forall|i: int| 0 <= i < windows.len() ==> (#[trigger] windows[i]).alive,
        overview_fits(windows.len() as int, output, padding),
        fits_i32(padding),
    ensures
        overview_requests(windows, output, padding).len() == windows.len(),
        forall|k: int| 0 <= k < windows.len() ==> {
            &&& (#[trigger] overview_requests(windows, output, padding)[k]) matches LayoutRequest::Show {
                window,
                geometry,
                fullscreen,
            }
            &&& window == windows[windows.len() - 1 - k].id
            &&& !fullscreen
            &&& geometry.size.w == output.w - 2 * padding
            &&& geometry.size.h == output.h - 2 * padding
            &&& geometry.loc.x == (output.w - 2 * padding) * k + padding
            &&& geometry.loc.y == padding
            &&& padding == OVERVIEW_PADDING ==> geometry.size.w == output.w - 400 && geometry.size.h == output.h
                - 400
        },
{
    let n = windows.len() as int;
    assert forall|k: int| 0 <= k < n implies {
        &&& (#[trigger] overview_requests(windows, output, padding)[k]) matches LayoutRequest::Show {
            window,
            geometry,
            fullscreen,
        }
        &&& window == windows[n - 1 - k].id
        &&& !fullscreen
        &&& geometry.size.w == output.w - 2 * padding
        &&& geometry.size.h == output.h - 2 * padding
        &&& geometry.loc.x == (output.w - 2 * padding) * k + padding
        &&& geometry.loc.y == padding
        &&& padding == OVERVIEW_PADDING ==> geometry.size.w == output.w - 400 && geometry.size.h == output.h - 400
    } by {
        lemma_overview_x_fits(k, n, output, padding);
        assert(by_recency(windows, k).alive);
    }
}

/// In overview mode no two windows overlap: each begins where the one before
/// it by recency ends.
pub proof fn lemma_overview_disjoint(k: int, j: int, n: int, output: Size, padding: int)
    requires
        0 <= k < j < n,
        fits_i32(padding),
        overview_fits(n, output, padding),
    ensures
        !overview_geometry(k, output, padding).spec_overlaps(overview_geometry(j, output, padding)),
        overview_geometry(k + 1, output, padding).loc.x == overview_geometry(k, output, padding).right(),
{
    let width = overview_width(output, padding);
    lemma_overview_x_fits(k, n, output, padding);
    lemma_overview_x_fits(k + 1, n, output, padding);
    lemma_overview_x_fits(j, n, output, padding);
    assert(width * (k + 1) == width * k + width) by (nonlinear_arith);
    assert(width >= 0 ==> width * j >= width * (k + 1)) by (nonlinear_arith)
        requires
            j >= k + 1,
    ;
}

/// The requests of fullscreen mode for `windows` on an output that covers
/// `output`, most recent window first.
pub fn fullscreen_layout(windows: &Vec<WindowElement>, output: Rectangle, fullscreen: bool) -> (r: Vec<LayoutRequest>)
    ensures
        r@ == fullscreen_requests(windows@, output, fullscreen),
{
    let n: usize = windows.len();
    let mut requests: Vec<LayoutRequest> = Vec::new();
    let mut k: usize = 0;
    while k < n
        invariant
            n == windows@.len(),
            0 <= k <= n,
            requests@.len() == k,
            forall|j: int| 0 <= j < k ==> requests@[j] == fullscreen_request(j, by_recency(windows@, j), output, fullscreen),
        decreases n - k,
    {
        let w: WindowElement = windows[n - 1 - k];
        if k == 0 && w.alive() {
            requests.push(LayoutRequest::Show { window: w.id, geometry: output, fullscreen });
        } else {
            requests.push(LayoutRequest::Hide { window: w.id });
        }
        k = k + 1;
    }
    assert(requests@ =~= fullscreen_requests(windows@, output, fullscreen));
    requests
}

/// The requests of overview mode for `windows` on an output of size `output`
/// with `padding` units kept free on every side, most recent window first.
/// The window at position `k` by recency gets the size of the output less
/// twice the padding, and lies at `(width * k + padding, padding)`.
pub fn overview_layout(windows: &Vec<WindowElement>, output: Size, padding: i32) -> (r: Result<Vec<LayoutRequest>, LayoutError>)
    ensures
        match r {
            Ok(requests) => {
                &&& overview_fits(windows@.len() as int, output, padding as int)
                &&& requests@ == overview_requests(windows@, output, padding as int)
            },
            Err(e) => e == LayoutError::Overflow && !overview_fits(windows@.len() as int, output, padding as int),
        },
{
    let n: usize = windows.len();
    let mut requests: Vec<LayoutRequest> = Vec::new();
    if n == 0 {
        assert(requests@ =~= overview_requests(windows@, output, padding as int));
        return Ok(requests);
    }
    let width: i64 = output.w as i64 - 2 * (padding as i64);
    let height: i64 = output.h as i64 - 2 * (padding as i64);
    assert(width * (n - 1) <= 0x2_0000_0000 * 0x1_0000_0000_0000_0000 && width * (n - 1) >= -0x2_0000_0000 * 0x1_0000_0000_0000_0000)
        by (nonlinear_arith)
        requires
            -0x2_0000_0000 <= width <= 0x2_0000_0000,
            0 <= n - 1 <= 0x1_0000_0000_0000_0000,
    ;
    let last_x: i128 = (width as i128) * ((n - 1) as i128) + padding as i128;
    if width < i32::MIN as i64 || width > i32::MAX as i64 || height < i32::MIN as i64
        || height > i32::MAX as i64 || last_x < i32::MIN as i128 || last_x > i32::MAX as i128 {
        return Err(LayoutError::Overflow);
    }
    let mut k: usize = 0;
    while k < n
        invariant
            n == windows@.len(),
            0 <= k <= n,
            width == overview_width(output, padding as int),
            height == overview_height(output, padding as int),
            fits_i32(width as int),
            fits_i32(height as int),
            fits_i32(overview_x(n - 1, output, padding as int)),
            requests@.len() == k,
            forall|j: int| 0 <= j < k ==> requests@[j] == overview_request(
                j,
                by_recency(windows@, j),
                output,
                padding as int,
            ),
        decreases n - k,
    {
        let w: WindowElement = windows[n - 1 - k];
        proof {
            lemma_overview_x_fits(k as int, n as int, output, padding as int);
        }
        assert(width * k <= 0x2_0000_0000 * 0x1_0000_0000_0000_0000 && width * k >= -0x2_0000_0000 * 0x1_0000_0000_0000_0000)
            by (nonlinear_arith)
            requires
                -0x2_0000_0000 <= width <= 0x2_0000_0000,
                0 <= k <= 0x1_0000_0000_0000_0000,
        ;
        let x: i128 = (width as i128) * (k as i128) + padding as i128;
        if w.alive() {
            let geometry = Rectangle {
                loc: Point { x: x as i32, y: padding },
                size: Size { w: width as i32, h: height as i32 },
            };
            requests.push(LayoutRequest::Show { window: w.id, geometry, fullscreen: false });
        } else {
            requests.push(LayoutRequest::Hide { window: w.id });
        }
        k = k + 1;
    }
    assert(requests@ =~= overview_requests(windows@, output, padding as int));
    Ok(requests)
}

} // verus!
