//! The ordered list of what is painted on an output in one frame.

use vstd::prelude::*;
use crate::geometry::{Point, Rectangle};
use crate::grid::{MAX_ELEMENTS_PER_ROW, PREVIEW_PADDING, grid_cells, grid_fits, thumbnail_grid};
use crate::layout::LayoutError;
use crate::output::Output;
use crate::shell::{FullscreenSurface, MappedWindow, WindowElement, WindowRenderElement};

verus! {

/// A colour that an output is cleared to before it is painted: red, green,
/// blue and opacity, each from 0 to 255.
#[derive(Clone, Copy, Debug, PartialEq, Eq, Structural)]
pub struct Color {
    pub r: u8,
    pub g: u8,
    pub b: u8,
    pub a: u8,
}

/// Opaque black, behind the normal stack.
pub open spec fn spec_clear_color() -> Color {
    Color { r: 0, g: 0, b: 0, a: 255 }
}

/// Fully transparent black, behind a fullscreen window.
pub open spec fn spec_clear_color_fullscreen() -> Color {
    Color { r: 0, g: 0, b: 0, a: 0 }
}

/// Opaque black, behind the normal stack.
pub fn clear_color() -> (r: Color)
    ensures
        r == spec_clear_color(),
{
    Color { r: 0, g: 0, b: 0, a: 255 }
}

/// Fully transparent black, behind a fullscreen window.
pub fn clear_color_fullscreen() -> (r: Color)
    ensures
        r == spec_clear_color_fullscreen(),
{
    Color { r: 0, g: 0, b: 0, a: 0 }
}

/// What the caller of the composer lays over everything else.
#[derive(Clone, Copy, Debug, PartialEq, Eq, Structural)]
pub enum CustomRenderElements {
    /// The surface `id`, covering `geometry` of the output.
    Surface { id: u64, geometry: Rectangle },
}

/// A scaled-down picture of a window. The content of the window is fitted
/// into `constrain` at one scale for both axes and centred there; the size of
/// the window itself is left as it is.
#[derive(Clone, Copy, Debug, PartialEq, Eq, Structural)]
pub struct PreviewElement {
    pub window: u64,
    pub constrain: Rectangle,
}

/// One paintable unit of an output. One case per kind.
#[derive(Clone, Copy, Debug, PartialEq, Eq, Structural)]
pub enum OutputRenderElements {
    /// The window `window` of the normal stack, at `location` in the logical space.
    Space { window: u64, location: Point },
    /// A unit of the window that overrides the normal stack.
    Window(WindowRenderElement),
    /// An overlay of the caller.
    Custom(CustomRenderElements),
    /// A preview of a window in its cell of the grid.
    Preview(PreviewElement),
}

/// The previews of `elements`, element `i` in cell `i` of `cells`.
pub open spec fn previews_in(elements: Seq<MappedWindow>, cells: Seq<Rectangle>) -> Seq<PreviewElement> {
    Seq::new(elements.len(), |i: int| PreviewElement { window: elements[i].window.id, constrain: cells[i] })
}

/// The previews of the windows `elements` of an output of logical size
/// `output.spec_logical_size()`, in the default grid.
pub open spec fn spec_preview_elements(elements: Seq<MappedWindow>, output: Output) -> Seq<PreviewElement> {
    previews_in(
        elements,
        grid_cells(
            elements.len() as int,
            output.spec_logical_size(),
            PREVIEW_PADDING as int,
            MAX_ELEMENTS_PER_ROW as int,
        ),
    )
}

/// The default grid for `n` windows fits on `output`.
pub open spec fn preview_fits(n: int, output: Output) -> bool {
    grid_fits(n, output.spec_logical_size(), PREVIEW_PADDING as int, MAX_ELEMENTS_PER_ROW as int)
}

/// The overlays as units of an output, in their order.
pub open spec fn custom_part(custom: Seq<CustomRenderElements>) -> Seq<OutputRenderElements> {
    Seq::new(custom.len(), |i: int| OutputRenderElements::Custom(custom[i]))
}

/// The units of a fullscreen window as units of an output, in their order.
pub open spec fn window_part(units: Seq<WindowRenderElement>) -> Seq<OutputRenderElements> {
    Seq::new(units.len(), |i: int| OutputRenderElements::Window(units[i]))
}

/// The previews as units of an output, in their order.
pub open spec fn preview_part(previews: Seq<PreviewElement>) -> Seq<OutputRenderElements> {
    Seq::new(previews.len(), |i: int| OutputRenderElements::Preview(previews[i]))
}

/// The normal stack as units of an output, top-most window first. `elements`
/// has the bottom-most window first.
pub open spec fn stack_part(elements: Seq<MappedWindow>) -> Seq<OutputRenderElements> {
    Seq::new(
        elements.len(),
        |i: int|
            OutputRenderElements::Space {
                window: elements[elements.len() - 1 - i].window.id,
                location: elements[elements.len() - 1 - i].location,
            },
    )
}

/// Previews are painted: they are asked for and there is a window to preview.
pub open spec fn previews_shown(elements: Seq<MappedWindow>, show_window_preview: bool) -> bool {
    show_window_preview && elements.len() > 0
}

/// What is painted on an output whose fullscreen slot reports `fullscreen`.
/// With a window in the slot: the overlays, then the units of that window at
/// the origin of the output, and nothing else. Without: the overlays, then the
/// previews if they are shown, then the normal stack from the top down.
pub open spec fn composed(
    fullscreen: Option<WindowElement>,
    output: Output,
    elements: Seq<MappedWindow>,
    custom: Seq<CustomRenderElements>,
    show_window_preview: bool,
) -> Seq<OutputRenderElements> {
    match fullscreen {
        Some(w) => custom_part(custom) + window_part(w.spec_render_elements(Point { x: 0, y: 0 })),
        None => custom_part(custom) + (if previews_shown(elements, show_window_preview) {
            preview_part(spec_preview_elements(elements, output))
        } else {
            Seq::<OutputRenderElements>::empty()
        }) + stack_part(elements),
    }
}

/// Why the normal path cannot be composed, if anything: the output has no
/// usable mode, or the previews are shown and their grid does not fit.
pub open spec fn compose_error(output: Output, elements: Seq<MappedWindow>, show_window_preview: bool) -> Option<LayoutError> {
    if !output.has_usable_mode() {
        Some(LayoutError::NoGeometry)
    } else if previews_shown(elements, show_window_preview) && !preview_fits(elements.len() as int, output) {
        Some(LayoutError::Overflow)
    } else {
        None
    }
}

/// One frame of an output takes one path. With a live window in the
/// fullscreen slot nothing of the normal stack and no preview is painted;
/// without one, no unit of a fullscreen window is.
pub proof fn lemma_paths_exclusive(
    fullscreen: Option<WindowElement>,
    output: Output,
    elements: Seq<MappedWindow>,
    custom: Seq<CustomRenderElements>,
    show_window_preview: bool,
)
    ensures
        fullscreen.is_some() ==> forall|i: int|
            0 <= i < composed(fullscreen, output, elements, custom, show_window_preview).len() ==> {
                let e = #[trigger] composed(fullscreen, output, elements, custom, show_window_preview)[i];
                e is Custom || e is Window
            },
        fullscreen.is_none() ==> forall|i: int|
            0 <= i < composed(fullscreen, output, elements, custom, show_window_preview).len() ==> {
                let e = #[trigger] composed(fullscreen, output, elements, custom, show_window_preview)[i];
                e is Custom || e is Preview || e is Space
            },
{
}

/// Why no frame can be composed for `output`, if anything: nothing stands in
/// the way of a live fullscreen window; the normal path has `compose_error`.
pub open spec fn frame_error(output: Output, elements: Seq<MappedWindow>, show_window_preview: bool) -> Option<LayoutError> {
    if output.fullscreen.live_window().is_some() {
        None
    } else {
        compose_error(output, elements, show_window_preview)
    }
}

/// The colour `output` is cleared to: transparent behind a live fullscreen
/// window, opaque behind the normal stack.
pub open spec fn ground(output: Output) -> Color {
    if output.fullscreen.live_window().is_some() {
        spec_clear_color_fullscreen()
    } else {
        spec_clear_color()
    }
}

/// The output after its fullscreen slot was read: a dead window has left the slot.
pub open spec fn after_composing(output: Output) -> Output {
    Output { fullscreen: FullscreenSurface { window: output.fullscreen.live_window() }, ..output }
}

/// The previews of the windows `space` of `output`, bottom-most window first:
/// window `i` in cell `i` of the default grid over the logical size of the
/// output.
pub fn space_preview_elements(space: &Vec<MappedWindow>, output: &Output) -> (r: Result<Vec<PreviewElement>, LayoutError>)
    ensures
        match r {
            Ok(previews) => preview_fits(space@.len() as int, *output) && previews@ == spec_preview_elements(
                space@,
                *output,
            ),
            Err(e) => e == LayoutError::Overflow && !preview_fits(space@.len() as int, *output),
        },
{
    let n: usize = space.len();
    let cells: Vec<Rectangle> = match thumbnail_grid(n, output.logical_size(), PREVIEW_PADDING, MAX_ELEMENTS_PER_ROW) {
        Ok(cells) => cells,
        Err(e) => {
            return Err(e);
        },
    };
    let mut previews: Vec<PreviewElement> = Vec::new();
    let mut i: usize = 0;
    while i < n
        invariant
            n == space@.len(),
            cells@.len() == n,
            0 <= i <= n,
            previews@.len() == i,
            forall|j: int| 0 <= j < i ==> previews@[j] == (PreviewElement {
                window: space@[j].window.id,
                constrain: cells@[j],
            }),
        decreases n - i,
    {
        previews.push(PreviewElement { window: space[i].window.id, constrain: cells[i] });
        i = i + 1;
    }
    assert(previews@ =~= spec_preview_elements(space@, *output));
    Ok(previews)
}

/// What is painted on `output` in one frame, bottom of the paint order last,
/// and the colour the output is cleared to. `space` holds the windows of the
/// normal stack that lie on the output, bottom-most first. The fullscreen
/// slot of the output is read, and emptied if its window is dead. A live
/// window in the slot is painted alone under the overlays, on a transparent
/// ground; otherwise the overlays, the previews if `show_window_preview` asks
/// for them and there is a window, and the normal stack are painted on an
/// opaque ground. Nothing is composed where the normal path is taken and the
/// output has no usable mode or the grid of the previews does not fit.
pub fn output_elements(
    output: &mut Output,
    space: &Vec<MappedWindow>,
    custom_elements: Vec<CustomRenderElements>,
    show_window_preview: bool,
) -> (r: Result<(Vec<OutputRenderElements>, Color), LayoutError>)
    ensures
        *final(output) == after_composing(*old(output)),
        match r {
            Ok((elements, color)) => {
                &&& frame_error(*old(output), space@, show_window_preview).is_none()
                &&& elements@ == composed(
                    old(output).fullscreen.live_window(),
                    *old(output),
                    space@,
                    custom_elements@,
                    show_window_preview,
                )
                &&& color == ground(*old(output))
            },
            Err(e) => frame_error(*old(output), space@, show_window_preview) == Some(e),
        },
{
    let mut elements: Vec<OutputRenderElements> = Vec::new();
    let n_custom: usize = custom_elements.len();
    let mut i: usize = 0;
    while i < n_custom
        invariant
            n_custom == custom_elements@.len(),
            0 <= i <= n_custom,
            elements@ == custom_part(custom_elements@).take(i as int),
        decreases n_custom - i,
    {
        elements.push(OutputRenderElements::Custom(custom_elements[i]));
        assert(elements@ =~= custom_part(custom_elements@).take(i + 1));
        i = i + 1;
    }
    assert(elements@ =~= custom_part(custom_elements@));
    let fullscreen: Option<WindowElement> = output.fullscreen.get();
    match fullscreen {
        Some(window) => {
            let units: Vec<WindowRenderElement> = window.render_elements(Point { x: 0, y: 0 });
            let n_units: usize = units.len();
            let mut j: usize = 0;
            while j < n_units
                invariant
                    n_units == units@.len(),
                    0 <= j <= n_units,
                    elements@ == custom_part(custom_elements@) + window_part(units@).take(j as int),
                decreases n_units - j,
            {
                elements.push(OutputRenderElements::Window(units[j]));
                assert(elements@ =~= custom_part(custom_elements@) + window_part(units@).take(j + 1));
                j = j + 1;
            }
            assert(elements@ =~= custom_part(custom_elements@) + window_part(units@));
            Ok((elements, clear_color_fullscreen()))
        },
        None => {
            let usable: bool = match output.mode {
                Some(mode) => mode.size.w >= 0 && mode.size.h >= 0 && output.scale >= 1,
                None => false,
            };
            if !usable {
                return Err(LayoutError::NoGeometry);
            }
            let n: usize = space.len();
            let ghost shown: Seq<OutputRenderElements> = if previews_shown(space@, show_window_preview) {
                preview_part(spec_preview_elements(space@, *old(output)))
            } else {
                Seq::<OutputRenderElements>::empty()
            };
            if show_window_preview && n > 0 {
                let previews: Vec<PreviewElement> = match space_preview_elements(space, output) {
                    Ok(previews) => previews,
                    Err(e) => {
                        return Err(e);
                    },
                };
                let mut j: usize = 0;
                while j < n
                    invariant
                        n == space@.len(),
                        previews@.len() == n,
                        0 <= j <= n,
                        elements@ == custom_part(custom_elements@) + preview_part(previews@).take(j as int),
                    decreases n - j,
                {
                    elements.push(OutputRenderElements::Preview(previews[j]));
                    assert(elements@ =~= custom_part(custom_elements@) + preview_part(previews@).take(j + 1));
                    j = j + 1;
                }
                assert(elements@ =~= custom_part(custom_elements@) + shown);
            } else {
                assert(elements@ =~= custom_part(custom_elements@) + shown);
            }
            let mut k: usize = 0;
            while k < n
                invariant
                    n == space@.len(),
                    0 <= k <= n,
                    elements@ == custom_part(custom_elements@) + shown + stack_part(space@).take(k as int),
                decreases n - k,
            {
                let m: MappedWindow = space[n - 1 - k];
                elements.push(OutputRenderElements::Space { window: m.window.id, location: m.location });
                assert(elements@ =~= custom_part(custom_elements@) + shown + stack_part(space@).take(k + 1));
                k = k + 1;
            }
            assert(elements@ =~= custom_part(custom_elements@) + shown + stack_part(space@));
            Ok((elements, clear_color()))
        },
    }
}

/// What the damage-tracked backend is handed for one frame.
#[derive(Debug)]
pub struct RenderRequest {
    /// 0 asks for a full repaint, `n > 0` goes by the damage of the last `n` frames.
    pub age: usize,
    /// What is painted, in the order of `output_elements`.
    pub elements: Vec<OutputRenderElements>,
    /// What the output is cleared to first.
    pub clear_color: Color,
}

/// Composes the frame of `output` as `output_elements` does and puts it
/// together with `age` for the backend. Nothing is handed on where nothing
/// can be composed.
pub fn render_output(
    output: &mut Output,
    space: &Vec<MappedWindow>,
    custom_elements: Vec<CustomRenderElements>,
    age: usize,
    show_window_preview: bool,
) -> (r: Result<RenderRequest, LayoutError>)
    ensures
        *final(output) == after_composing(*old(output)),
        match r {
            Ok(request) => {
                &&& frame_error(*old(output), space@, show_window_preview).is_none()
                &&& request.age == age
                &&& request.elements@ == composed(
                    old(output).fullscreen.live_window(),
                    *old(output),
                    space@,
                    custom_elements@,
                    show_window_preview,
                )
                &&& request.clear_color == ground(*old(output))
            },
            Err(e) => frame_error(*old(output), space@, show_window_preview) == Some(e),
        },
{
    match output_elements(output, space, custom_elements, show_window_preview) {
        Ok((elements, clear_color)) => Ok(RenderRequest { age, elements, clear_color }),
        Err(e) => Err(e),
    }
}

} // verus!
