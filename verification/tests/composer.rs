use aurora::geometry::{Point, Rectangle, Size, Transform};
use aurora::layout::LayoutError;
use aurora::output::{Mode, Output};
use aurora::renderer::{
    clear_color, clear_color_fullscreen, output_elements, render_output, Color, CustomRenderElements,
    OutputRenderElements, PreviewElement,
};
use aurora::shell::{MappedWindow, WindowElement, WindowRenderElement};

fn rect(x: i32, y: i32, w: i32, h: i32) -> Rectangle {
    Rectangle::new(Point::new(x, y), Size::new(w, h))
}

fn window(id: u64, alive: bool) -> WindowElement {
    WindowElement { id, alive, bbox: rect(0, 0, 640, 480) }
}

fn mapped(id: u64, x: i32, y: i32) -> MappedWindow {
    MappedWindow { window: window(id, true), location: Point::new(x, y) }
}

fn output() -> Output {
    Output::new(Point::new(0, 0), Some(Mode { size: Size::new(1920, 1080), refresh: 60_000 }), Transform::Normal, 1)
}

fn overlay(id: u64) -> CustomRenderElements {
    CustomRenderElements::Surface { id, geometry: rect(0, 0, 16, 16) }
}

#[test]
fn clear_colours() {
    assert_eq!(clear_color(), Color { r: 0, g: 0, b: 0, a: 255 });
    assert_eq!(clear_color_fullscreen(), Color { r: 0, g: 0, b: 0, a: 0 });
}

#[test]
fn window_paints_its_content_at_the_location() {
    assert_eq!(
        window(4, true).render_elements(Point::new(3, 5)),
        vec![WindowRenderElement::Window { window: 4, location: Point::new(3, 5) }]
    );
}

#[test]
fn normal_path_paints_overlays_then_the_stack_from_the_top() {
    let mut out = output();
    let space = vec![mapped(1, 0, 0), mapped(2, 100, 50), mapped(3, 7, 9)];
    let (elements, color) = output_elements(&mut out, &space, vec![overlay(90), overlay(91)], false).unwrap();
    assert_eq!(
        elements,
        vec![
            OutputRenderElements::Custom(overlay(90)),
            OutputRenderElements::Custom(overlay(91)),
            OutputRenderElements::Space { window: 3, location: Point::new(7, 9) },
            OutputRenderElements::Space { window: 2, location: Point::new(100, 50) },
            OutputRenderElements::Space { window: 1, location: Point::new(0, 0) },
        ]
    );
    assert_eq!(color, clear_color());
}

#[test]
fn previews_stand_between_overlays_and_stack() {
    let mut out = output();
    let space = vec![mapped(1, 0, 0), mapped(2, 100, 50)];
    let (elements, color) = output_elements(&mut out, &space, vec![overlay(90)], true).unwrap();
    assert_eq!(
        elements,
        vec![
            OutputRenderElements::Custom(overlay(90)),
            OutputRenderElements::Preview(PreviewElement { window: 1, constrain: rect(10, 10, 940, 1060) }),
            OutputRenderElements::Preview(PreviewElement { window: 2, constrain: rect(960, 10, 940, 1060) }),
            OutputRenderElements::Space { window: 2, location: Point::new(100, 50) },
            OutputRenderElements::Space { window: 1, location: Point::new(0, 0) },
        ]
    );
    assert_eq!(color, clear_color());
}

#[test]
fn no_preview_without_a_window() {
    let mut out = output();
    let (elements, color) = output_elements(&mut out, &Vec::new(), vec![overlay(90)], true).unwrap();
    assert_eq!(elements, vec![OutputRenderElements::Custom(overlay(90))]);
    assert_eq!(color, clear_color());
}

#[test]
fn empty_set_composes_an_empty_list() {
    let mut out = output();
    let (elements, color) = output_elements(&mut out, &Vec::new(), Vec::new(), false).unwrap();
    assert_eq!(elements, Vec::new());
    assert_eq!(color, clear_color());
}

#[test]
fn fullscreen_window_is_painted_alone_under_the_overlays() {
    let mut out = output();
    out.fullscreen.set(window(8, true));
    let space = vec![mapped(1, 0, 0), mapped(8, 100, 50)];
    let (elements, color) = output_elements(&mut out, &space, vec![overlay(90)], true).unwrap();
    assert_eq!(
        elements,
        vec![
            OutputRenderElements::Custom(overlay(90)),
            OutputRenderElements::Window(WindowRenderElement::Window { window: 8, location: Point::new(0, 0) }),
        ]
    );
    assert_eq!(color, clear_color_fullscreen());
    assert_eq!(out.fullscreen.window, Some(window(8, true)));
}

#[test]
fn one_frame_takes_one_path() {
    let space = vec![mapped(1, 0, 0), mapped(2, 100, 50)];
    for preview in [false, true] {
        let mut out = output();
        out.fullscreen.set(window(2, true));
        let (elements, _) = output_elements(&mut out, &space, vec![overlay(90)], preview).unwrap();
        assert!(elements
            .iter()
            .all(|e| matches!(e, OutputRenderElements::Custom(_) | OutputRenderElements::Window(_))));
        let mut out = output();
        let (elements, _) = output_elements(&mut out, &space, vec![overlay(90)], preview).unwrap();
        assert!(!elements.iter().any(|e| matches!(e, OutputRenderElements::Window(_))));
    }
}

#[test]
fn dead_fullscreen_window_leaves_the_slot_and_the_normal_path_is_taken() {
    let mut out = output();
    out.fullscreen.set(window(8, true));
    out.fullscreen.mark_dead(8);
    let space = vec![mapped(1, 5, 6)];
    let (elements, color) = output_elements(&mut out, &space, Vec::new(), false).unwrap();
    assert_eq!(elements, vec![OutputRenderElements::Space { window: 1, location: Point::new(5, 6) }]);
    assert_eq!(color, clear_color());
    assert_eq!(out.fullscreen.window, None);
}

#[test]
fn normal_path_needs_a_mode() {
    let mut blank = Output::new(Point::new(0, 0), None, Transform::Normal, 1);
    assert_eq!(output_elements(&mut blank, &vec![mapped(1, 0, 0)], Vec::new(), false), Err(LayoutError::NoGeometry));
    assert_eq!(render_output(&mut blank, &Vec::new(), Vec::new(), 0, false).err(), Some(LayoutError::NoGeometry));
    blank.fullscreen.set(window(8, true));
    let (elements, color) = output_elements(&mut blank, &vec![mapped(1, 0, 0)], Vec::new(), false).unwrap();
    assert_eq!(
        elements,
        vec![OutputRenderElements::Window(WindowRenderElement::Window { window: 8, location: Point::new(0, 0) })]
    );
    assert_eq!(color, clear_color_fullscreen());
}

#[test]
fn render_request_carries_age_elements_and_colour() {
    let mut out = output();
    let space = vec![mapped(1, 0, 0)];
    let request = render_output(&mut out, &space, vec![overlay(90)], 3, false).unwrap();
    assert_eq!(request.age, 3);
    assert_eq!(
        request.elements,
        vec![
            OutputRenderElements::Custom(overlay(90)),
            OutputRenderElements::Space { window: 1, location: Point::new(0, 0) },
        ]
    );
    assert_eq!(request.clear_color, clear_color());
    out.fullscreen.set(window(1, true));
    let request = render_output(&mut out, &space, Vec::new(), 0, true).unwrap();
    assert_eq!(request.age, 0);
    assert_eq!(request.clear_color, clear_color_fullscreen());
    assert_eq!(request.elements.len(), 1);
}
