use ruddle_gui::{
    Bounds, ElementId, GuiContext, GuiTreeNode, HorizAlign, Position, Size, VertAlign,
};
use ruddle_gui::widget::{bordered, ButtonState, Frame};
use std::cmp::Ordering;

fn bounds(x: i32, y: i32) -> Bounds {
    Bounds::new(Position::Absolute((x, y)), Size::Absolute((10, 20)))
}

fn is_absolute(b: &Bounds, x: i32, y: i32) -> bool {
    matches!(b.position(), Position::Absolute(p) if p == (x, y))
}

#[test]
fn bounds_hold_position_and_size() {
    let b = Bounds::new(
        Position::Align(HorizAlign::LeftOffset(4), VertAlign::Center),
        Size::Relative((-2, 3)),
    );
    assert!(matches!(
        b.position(),
        Position::Align(HorizAlign::LeftOffset(4), VertAlign::Center)
    ));
    assert!(matches!(b.size(), Size::Relative((-2, 3))));
    assert!(matches!(bounds(1, 2).size(), Size::Absolute((10, 20))));
    assert!(matches!(Bounds::new(Position::Relative((1, 1)), Size::Fill).size(), Size::Fill));
}

#[test]
fn element_ids_order_by_slot_then_generation() {
    let a = ElementId::new(1, 5);
    let b = ElementId::new(2, 1);
    let c = ElementId::new(2, 3);
    assert_eq!(a.partial_cmp(&b), Some(Ordering::Less));
    assert_eq!(b.partial_cmp(&a), Some(Ordering::Greater));
    assert_eq!(b.partial_cmp(&c), Some(Ordering::Less));
    assert_eq!(c.partial_cmp(&b), Some(Ordering::Greater));
    assert_eq!(c.partial_cmp(&c), Some(Ordering::Equal));
    assert_eq!(a.cmp(&b), Ordering::Less);
    assert_eq!(c.cmp(&b), Ordering::Greater);
    assert!(a < b && b < c && !(c < c));
    assert_eq!(ElementId::new(2, 3), c);
    assert_ne!(b, c);
    let mut ids = vec![c, a, b];
    ids.sort();
    assert_eq!(ids, vec![a, b, c]);
}

#[test]
fn tree_node_collects_parent_and_children() {
    let mut node = GuiTreeNode::new();
    assert_eq!(*node.parent(), None);
    assert!(node.children().is_empty());
    node.with_parent(ElementId::new(7, 1))
        .with_child(ElementId::new(1, 1))
        .with_children(&[ElementId::new(2, 1), ElementId::new(3, 1)]);
    assert_eq!(*node.parent(), Some(ElementId::new(7, 1)));
    assert_eq!(
        *node.children(),
        vec![ElementId::new(1, 1), ElementId::new(2, 1), ElementId::new(3, 1)]
    );
}

#[test]
fn removing_a_child_moves_the_last_into_its_place() {
    let ids: Vec<ElementId> = (0..5).map(|i| ElementId::new(i, 1)).collect();
    let mut node = GuiTreeNode::new();
    node.with_children(&ids);
    node.remove_child(ids[1]);
    assert_eq!(*node.children(), vec![ids[0], ids[4], ids[2], ids[3]]);
    node.remove_child(ids[3]);
    assert_eq!(*node.children(), vec![ids[0], ids[4], ids[2]]);
    node.remove_child(ElementId::new(1, 2));
    assert_eq!(*node.children(), vec![ids[0], ids[4], ids[2]]);
    let mut twice = GuiTreeNode::new();
    twice.with_children(&[ids[0], ids[1], ids[0], ids[2]]);
    twice.remove_child(ids[0]);
    assert_eq!(*twice.children(), vec![ids[2], ids[1], ids[0]]);
}

#[test]
fn context_hands_out_slots_in_order() {
    let mut gui = GuiContext::new();
    let root = gui.add_elem(None, bounds(0, 0));
    assert_eq!(root, ElementId::new(0, 1));
    let child = gui.add_elem(Some(root), bounds(1, 1));
    assert_eq!(child, ElementId::new(1, 1));
    let other = gui.add_elem(Some(root), bounds(2, 2));
    assert_eq!(other, ElementId::new(2, 1));
    let (elements, hierarchy, all_bounds) = gui.get_data();
    assert_eq!(*elements, vec![root, child, other]);
    assert_eq!(*hierarchy[0].parent(), None);
    assert_eq!(*hierarchy[0].children(), vec![child, other]);
    assert_eq!(*hierarchy[1].parent(), Some(root));
    assert!(hierarchy[1].children().is_empty());
    assert!(is_absolute(&all_bounds[2], 2, 2));
}

#[test]
fn deleted_slot_comes_back_under_the_next_generation() {
    let mut gui = GuiContext::new();
    let root = gui.add_elem(None, bounds(0, 0));
    let child = gui.add_elem(Some(root), bounds(1, 1));
    assert_eq!(gui.delete(child), Ok(()));
    {
        let (elements, hierarchy, all_bounds) = gui.get_data();
        assert_eq!(elements[1], ElementId::new(1, 0));
        assert_eq!(*hierarchy[1].parent(), None);
        assert!(is_absolute(&all_bounds[1], 0, 0));
        assert!(matches!(all_bounds[1].size(), Size::Absolute((0, 0))));
    }
    assert_eq!(gui.delete(child), Err(String::from("Not a valid Element ID")));
    assert_eq!(gui.delete(ElementId::new(9, 1)), Err(String::from("Not a valid Element ID")));
    let again = gui.add_elem(None, bounds(5, 5));
    assert_eq!(again, ElementId::new(1, 2));
    let fresh = gui.add_elem(None, bounds(6, 6));
    assert_eq!(fresh, ElementId::new(2, 1));
    let (elements, _, all_bounds) = gui.get_data();
    assert_eq!(*elements, vec![root, again, fresh]);
    assert!(is_absolute(&all_bounds[1], 5, 5));
}

#[test]
fn generations_count_up() {
    let mut gui = GuiContext::new();
    let mut id = gui.add_elem(None, bounds(0, 0));
    assert_eq!(gui.delete(id), Ok(()));
    id = gui.add_elem(None, bounds(0, 0));
    assert_eq!(id, ElementId::new(0, 2));
    assert_eq!(gui.delete(ElementId::new(0, 3)), Err(String::from("Not a valid Element ID")));
    assert_eq!(gui.delete(id), Ok(()));
    assert_eq!(gui.add_elem(None, bounds(0, 0)), ElementId::new(0, 3));
}

#[test]
fn button_clicks_when_released_after_being_held() {
    let mut button = ButtonState::new();
    assert!(!button.is_mouse_over() && !button.is_mouse_down());
    button.on_mouse_down();
    assert!(!button.is_mouse_down());
    assert!(!button.on_mouse_up());
    button.on_mouse_over();
    assert!(button.is_mouse_over() && !button.is_mouse_down());
    button.on_mouse_down();
    assert!(button.is_mouse_down());
    assert!(button.on_mouse_up());
    assert!(button.is_mouse_over() && !button.is_mouse_down());
    assert!(!button.on_mouse_up());
    button.on_mouse_down();
    button.on_mouse_leave();
    assert!(!button.is_mouse_over() && !button.is_mouse_down());
    assert!(!button.on_mouse_up());
}

#[test]
fn bordered_rectangle_has_an_outer_and_an_inner_rectangle() {
    let frame = Frame { x: 10, y: 20, width: 100, height: 4 };
    let (outer, inner) = bordered(frame, 6);
    assert_eq!(outer, Frame { x: 7, y: 17, width: 106, height: 10 });
    assert_eq!(inner, Frame { x: 13, y: 23, width: 94, height: 1 });
    let (outer, inner) = bordered(frame, 0);
    assert_eq!((outer, inner), (frame, frame));
}

#[test]
fn handed_out_identifiers_have_a_generation() {
    let mut gui = GuiContext::new();
    for round in 0..5u32 {
        let id = gui.add_elem(None, bounds(0, 0));
        assert_eq!(id, ElementId::new(0, round + 1));
        assert!(id.gen >= 1);
        assert_eq!(gui.delete(id), Ok(()));
        assert_eq!(gui.delete(id), Err(String::from("Not a valid Element ID")));
    }
}
