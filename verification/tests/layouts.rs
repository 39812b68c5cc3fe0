use rwm::layouts::fullscreen;
use rwm::layouts::tall;
use rwm::layouts::Layout;
use rwm::stack::Stack;
use rwm::window::{Geometry, Window, WindowType};

fn windows(count: u32) -> Stack<Window<u32>> {
    let mut items = Vec::new();
    for id in 0..count {
        items.push(Window::new(id, WindowType::Normal));
    }
    items.into()
}

fn placed_at(stack: &Stack<Window<u32>>) -> Vec<Geometry> {
    stack.iter().map(|window| *window.get_view()).collect()
}

fn ids_of(stack: &Stack<Window<u32>>) -> Vec<u32> {
    stack.iter().map(|window| window.id).collect()
}

#[test]
fn tall_gives_a_single_window_the_whole_viewport() {
    let view = Geometry::new(0, 0, 800, 600);
    let arranged = Layout::Tall.handle_layout(&view, windows(1));
    assert_eq!(placed_at(&arranged), vec![Geometry::new(0, 0, 800, 600)]);
    assert!(arranged[0].is_visible());
}

#[test]
fn tall_splits_two_windows_left_and_right() {
    let view = Geometry::new(0, 0, 800, 600);
    let arranged = tall::handle_layout(&view, windows(2));
    assert_eq!(
        placed_at(&arranged),
        vec![Geometry::new(0, 0, 400, 600), Geometry::new(400, 0, 400, 600)]
    );
}

#[test]
fn tall_stacks_the_other_windows_on_the_right() {
    let view = Geometry::new(0, 0, 801, 601);
    let arranged = Layout::Tall.handle_layout(&view, windows(4));
    assert_eq!(
        placed_at(&arranged),
        vec![
            Geometry::new(0, 0, 400, 601),
            Geometry::new(400, 0, 400, 200),
            Geometry::new(400, 200, 400, 200),
            Geometry::new(400, 400, 400, 200),
        ]
    );
    assert!(arranged.iter().all(|window| window.is_visible()));
}

#[test]
fn tall_starts_at_the_position_of_the_viewport() {
    let view = Geometry::new(100, -50, 800, 600);
    let arranged = Layout::Tall.handle_layout(&view, windows(3));
    assert_eq!(
        placed_at(&arranged),
        vec![
            Geometry::new(100, -50, 400, 600),
            Geometry::new(500, -50, 400, 300),
            Geometry::new(500, 250, 400, 300),
        ]
    );
}

#[test]
fn tall_with_more_rows_than_pixels_gives_rows_no_height() {
    let view = Geometry::new(0, 0, 10, 2);
    let arranged = Layout::Tall.handle_layout(&view, windows(4));
    assert_eq!(
        placed_at(&arranged),
        vec![
            Geometry::new(0, 0, 5, 2),
            Geometry::new(5, 0, 5, 0),
            Geometry::new(5, 0, 5, 0),
            Geometry::new(5, 0, 5, 0),
        ]
    );
}

#[test]
fn tall_at_the_far_edge_of_the_coordinates() {
    let view = Geometry::new(i32::MAX - 10, i32::MIN, 10, u32::MAX);
    assert!(view.fits());
    let arranged = Layout::Tall.handle_layout(&view, windows(3));
    assert_eq!(
        placed_at(&arranged),
        vec![
            Geometry::new(i32::MAX - 10, i32::MIN, 5, u32::MAX),
            Geometry::new(i32::MAX - 5, i32::MIN, 5, 2147483647),
            Geometry::new(i32::MAX - 5, -1, 5, 2147483647),
        ]
    );
}

#[test]
fn tall_leaves_an_empty_stack_as_it_is() {
    let view = Geometry::new(0, 0, 800, 600);
    let arranged = Layout::Tall.handle_layout(&view, windows(0));
    assert!(arranged.is_empty());
    assert_eq!(arranged.current_index(), None);
}

#[test]
fn layouts_keep_order_and_focus() {
    let view = Geometry::new(0, 0, 800, 600);
    let arranged = Layout::Tall.handle_layout(&view, windows(3).set_current(2));
    assert_eq!(ids_of(&arranged), vec![0, 1, 2]);
    assert_eq!(arranged.current_index(), Some(2));
    let arranged = Layout::FullScreen.handle_layout(&view, windows(3).set_current(1));
    assert_eq!(ids_of(&arranged), vec![0, 1, 2]);
    assert_eq!(arranged.current_index(), Some(1));
}

#[test]
fn fullscreen_shows_the_focused_window_alone() {
    let view = Geometry::new(10, 20, 800, 600);
    let arranged = fullscreen::handle_layout(&view, windows(3).set_current(1));
    assert_eq!(placed_at(&arranged), vec![view, view, view]);
    let shown: Vec<bool> = arranged.iter().map(|window| window.is_visible()).collect();
    assert_eq!(shown, vec![false, true, false]);
}

#[test]
fn fullscreen_leaves_an_empty_stack_as_it_is() {
    let view = Geometry::new(0, 0, 800, 600);
    let arranged = Layout::FullScreen.handle_layout(&view, windows(0));
    assert!(arranged.is_empty());
}

#[test]
fn layouts_have_names() {
    assert_eq!(Layout::from_name("tall"), Some(Layout::Tall));
    assert_eq!(Layout::from_name("fullscreen"), Some(Layout::FullScreen));
    assert_eq!(Layout::from_name("Tall"), None);
    assert_eq!(Layout::from_name(""), None);
}

#[test]
fn geometry_fits_when_its_far_corner_is_a_position() {
    assert!(Geometry::new(0, 0, 0, 0).fits());
    assert!(Geometry::default().fits());
    assert_eq!(Geometry::default(), Geometry::new(0, 0, 0, 0));
    assert!(Geometry::new(0, 0, i32::MAX as u32, i32::MAX as u32).fits());
    assert!(!Geometry::new(1, 0, i32::MAX as u32, 0).fits());
    assert!(!Geometry::new(0, 1, 0, i32::MAX as u32).fits());
    assert!(Geometry::new(i32::MIN, i32::MIN, u32::MAX, u32::MAX).fits());
    assert!(!Geometry::new(0, 0, u32::MAX, 0).fits());
}

#[test]
fn windows_are_the_same_when_their_ids_are() {
    let window = Window::new(7u32, WindowType::Normal);
    assert_eq!(window.view, None);
    assert!(!window.is_visible());
    assert!(!window.has_view());
    let placed = Window::new(7u32, WindowType::Dialog)
        .set_view(Geometry::new(1, 2, 3, 4))
        .visible(true);
    assert!(placed.has_view());
    assert!(placed.is_visible());
    assert_eq!(*placed.get_view(), Geometry::new(1, 2, 3, 4));
    assert_eq!(*placed.id(), 7);
    assert_eq!(*placed, 7);
    assert!(window == placed);
    assert!(window != Window::new(8u32, WindowType::Normal));
}
