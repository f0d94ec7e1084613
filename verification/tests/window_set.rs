use aurora::app_manager::AppManger;
use aurora::geometry::{Point, Rectangle, Size, Transform};
use aurora::layout::LayoutRequest;
use aurora::output::{Mode, Output};
use aurora::shell::{mark_dead, place_new_window, retain_alive, FullscreenSurface, WindowElement};
use aurora::window_manager::WindowManager;

fn window(id: u64, alive: bool) -> WindowElement {
    WindowElement { id, alive, bbox: Rectangle::new(Point::new(0, 0), Size::new(0, 0)) }
}

fn outputs() -> Vec<Output> {
    vec![Output::new(Point::new(0, 0), Some(Mode { size: Size::new(800, 600), refresh: 60_000 }), Transform::Normal, 1)]
}

fn ids(requests: &[LayoutRequest]) -> Vec<u64> {
    let mut ids = Vec::new();
    for request in requests {
        match request {
            LayoutRequest::Show { window, .. } => ids.push(*window),
            LayoutRequest::Hide { window } => ids.push(*window),
        }
    }
    ids
}

#[test]
fn new_set_is_empty() {
    let manager = WindowManager::new();
    assert!(manager.is_empty());
    assert_eq!(manager.get_active_window(), None);
}

#[test]
fn inserted_window_becomes_active() {
    let mut manager = WindowManager::new();
    manager.insert_window(window(1, true));
    assert!(!manager.is_empty());
    assert_eq!(manager.get_active_window(), Some(&window(1, true)));
    manager.insert_window(window(2, true));
    assert_eq!(manager.get_active_window(), Some(&window(2, true)));
}

#[test]
fn inserting_a_window_again_duplicates_it() {
    let mut manager = WindowManager::new();
    manager.insert_window(window(1, true));
    manager.insert_window(window(2, true));
    manager.insert_window(window(1, true));
    let requests = manager.refresh_geometry(&outputs()).unwrap();
    assert_eq!(ids(&requests), vec![1, 2, 1]);
}

#[test]
fn prune_removes_the_dead_and_keeps_the_order() {
    let windows =
        vec![window(1, false), window(2, true), window(3, false), window(4, true), window(5, true), window(6, false)];
    assert_eq!(retain_alive(&windows), vec![window(2, true), window(4, true), window(5, true)]);
    assert_eq!(retain_alive(&Vec::new()), Vec::new());
    assert_eq!(retain_alive(&vec![window(1, false)]), Vec::new());
}

#[test]
fn prune_leaves_no_dead_window() {
    let mut windows = Vec::new();
    for id in 0..64u64 {
        windows.push(window(id, id % 3 != 0));
    }
    let kept = retain_alive(&windows);
    assert!(kept.iter().all(|w| w.alive));
    assert_eq!(kept.len(), 42);
    assert_eq!(retain_alive(&kept), kept);
}

#[test]
fn manager_prunes_dead_windows() {
    let mut manager = WindowManager::new();
    manager.insert_window(window(1, true));
    manager.insert_window(window(2, false));
    manager.insert_window(window(3, true));
    manager.insert_window(window(4, false));
    manager.remove_dead_window();
    assert_eq!(manager.get_active_window(), Some(&window(3, true)));
    let requests = manager.refresh_geometry(&outputs()).unwrap();
    assert_eq!(ids(&requests), vec![3, 1]);
}

#[test]
fn pruning_a_set_of_dead_windows_empties_it() {
    let mut manager = WindowManager::new();
    manager.insert_window(window(1, false));
    manager.insert_window(window(2, false));
    manager.remove_dead_window();
    assert!(manager.is_empty());
    assert_eq!(manager.get_active_window(), None);
    assert_eq!(manager.refresh_geometry(&outputs()), Ok(Vec::new()));
}

#[test]
fn closed_window_stays_until_pruned() {
    let mut manager = WindowManager::new();
    manager.insert_window(window(1, true));
    manager.insert_window(window(2, true));
    manager.insert_window(window(1, true));
    manager.mark_dead(1);
    assert_eq!(manager.get_active_window(), Some(&window(1, false)));
    manager.remove_dead_window();
    assert_eq!(manager.get_active_window(), Some(&window(2, true)));
    manager.mark_dead(9);
    assert_eq!(manager.get_active_window(), Some(&window(2, true)));
}

#[test]
fn mark_dead_lowers_the_flag_of_every_entry_of_that_identity() {
    let mut windows = vec![window(1, true), window(2, true), window(1, true), window(3, false)];
    mark_dead(&mut windows, 1);
    assert_eq!(windows, vec![window(1, false), window(2, true), window(1, false), window(3, false)]);
}

#[test]
fn app_manager_prunes_dead_windows() {
    let mut apps = AppManger::new();
    apps.insert_window(window(1, true));
    apps.insert_window(window(2, true));
    apps.insert_window(window(3, true));
    apps.mark_dead(2);
    apps.remove_dead_window();
    let requests = apps.refresh_geometry(&outputs()).unwrap();
    assert_eq!(ids(&requests), vec![3, 1]);
}

#[test]
fn fullscreen_slot_reports_a_live_window() {
    let mut slot = FullscreenSurface::new();
    assert_eq!(slot.get(), None);
    slot.set(window(5, true));
    assert_eq!(slot.get(), Some(window(5, true)));
    assert_eq!(slot.get(), Some(window(5, true)));
    slot.set(window(6, true));
    assert_eq!(slot.get(), Some(window(6, true)));
}

#[test]
fn fullscreen_slot_drops_a_dead_window_when_read() {
    let mut slot = FullscreenSurface::new();
    slot.set(window(5, true));
    slot.mark_dead(4);
    assert_eq!(slot.get(), Some(window(5, true)));
    slot.mark_dead(5);
    assert_eq!(slot.window, Some(window(5, false)));
    assert_eq!(slot.get(), None);
    assert_eq!(slot.window, None);
}

#[test]
fn fullscreen_slot_clear_hands_back_what_was_there() {
    let mut slot = FullscreenSurface::new();
    assert_eq!(slot.clear(), None);
    slot.set(window(5, false));
    assert_eq!(slot.clear(), Some(window(5, false)));
    assert_eq!(slot.clear(), None);
    assert_eq!(slot.get(), None);
}

#[test]
fn window_reports_its_flag_and_box() {
    let bbox = Rectangle::new(Point::new(-4, -8), Size::new(300, 200));
    let w = WindowElement { id: 3, alive: true, bbox };
    assert!(w.alive());
    assert_eq!(w.bbox(), bbox);
    assert!(!window(3, false).alive());
}

#[test]
fn new_window_is_placed_within_the_area() {
    let area = Rectangle::new(Point::new(-50, 300), Size::new(1280, 720));
    let mut seen = Vec::new();
    for _ in 0..200 {
        let p = place_new_window(area).unwrap();
        assert!(area.contains(p));
        if !seen.contains(&p) {
            seen.push(p);
        }
    }
    assert!(seen.len() > 1);
    assert!(seen.iter().any(|p| p.x != area.loc.x));
    assert!(seen.iter().any(|p| p.y != area.loc.y));
}

#[test]
fn area_of_one_unit_has_one_place() {
    let area = Rectangle::new(Point::new(7, 9), Size::new(1, 1));
    assert_eq!(place_new_window(area), Some(Point::new(7, 9)));
}

#[test]
fn no_place_in_an_area_that_is_empty_or_ends_out_of_range() {
    assert_eq!(place_new_window(Rectangle::new(Point::new(0, 0), Size::new(0, 10))), None);
    assert_eq!(place_new_window(Rectangle::new(Point::new(0, 0), Size::new(10, -1))), None);
    assert_eq!(place_new_window(Rectangle::new(Point::new(i32::MAX, 0), Size::new(1, 1))), None);
    assert_eq!(place_new_window(Rectangle::new(Point::new(0, i32::MAX - 1), Size::new(1, 2))), None);
    assert!(place_new_window(Rectangle::new(Point::new(i32::MAX - 1, i32::MAX - 1), Size::new(1, 1))).is_some());
}
