use gpui_component::collapsible_list::{default_header_icon, CollapsibleListItem, CollapsibleListState, HeaderIcon};

/// The default header and content heights that the rendering layer uses.
const HEADER: f32 = 36.0;
const CONTENT: f32 = 100.0;

fn item(id: &str, label: &str) -> CollapsibleListItem<f32> {
    CollapsibleListItem::new(id, label, HEADER, CONTENT)
}

fn total_height(parts: (f32, Option<f32>)) -> f32 {
    match parts {
        (header, Some(content)) => header + content,
        (header, None) => header,
    }
}

#[test]
fn test_collapsible_list_item_builder() {
    let item = item("test-id", "Test Label")
        .header_height(40.0)
        .content_height(200.0)
        .expanded(true)
        .disabled(false);

    assert_eq!(item.id.as_str(), "test-id");
    assert_eq!(item.label.as_str(), "Test Label");
    assert_eq!(item.header_height, 40.0);
    assert_eq!(item.content_height, 200.0);
    assert!(item.is_expanded());
    assert!(!item.is_disabled());
    assert_eq!(total_height(item.height_parts()), 240.0);
}

#[test]
fn test_collapsible_list_item_toggle() {
    let mut item = item("test", "Test");

    assert!(!item.is_expanded());
    assert_eq!(total_height(item.height_parts()), 36.0);

    item.toggle();
    assert!(item.is_expanded());
    assert_eq!(total_height(item.height_parts()), 136.0);

    item.toggle();
    assert!(!item.is_expanded());
}

#[test]
fn test_collapsible_list_state() {
    let mut state = CollapsibleListState::new().items(vec![
        item("item-1", "Item 1"),
        item("item-2", "Item 2").expanded(true),
        item("item-3", "Item 3").disabled(true),
    ]);

    assert_eq!(state.len(), 3);
    assert!(!state.is_empty());
    assert!(state.selected_index().is_none());

    // Test item access
    assert!(!state.items_ref()[0].is_expanded());
    assert!(state.items_ref()[1].is_expanded());
    assert!(state.items_ref()[2].is_disabled());

    // Test toggle
    state.toggle_expand(0);
    assert!(state.items_ref()[0].is_expanded());

    // Test disabled item cannot be toggled
    state.toggle_expand(2);
    assert!(!state.items_ref()[2].is_expanded());

    // Test expand/collapse all
    state.expand_all();
    assert!(state.items_ref()[0].is_expanded());
    assert!(state.items_ref()[1].is_expanded());
    assert!(!state.items_ref()[2].is_expanded()); // Disabled items not affected

    state.collapse_all();
    assert!(!state.items_ref()[0].is_expanded());
    assert!(!state.items_ref()[1].is_expanded());
}

#[test]
fn new_item_defaults() {
    let item = CollapsibleListItem::new("a", "A", 36u32, 100u32);
    assert!(!item.is_expanded());
    assert!(!item.is_disabled());
    assert_eq!(item.height_parts(), (36, None));
    let item = item.expanded(true);
    assert_eq!(item.height_parts(), (36, Some(100)));
}

#[test]
fn empty_state() {
    let state: CollapsibleListState<u32> = CollapsibleListState::new();
    assert_eq!(state.len(), 0);
    assert!(state.is_empty());
    assert!(state.selected_item().is_none());
    assert!(state.item_height_parts().is_empty());
}

#[test]
fn toggle_reports_redraw() {
    let mut state = CollapsibleListState::new().items(vec![
        item("a", "A"),
        item("b", "B").disabled(true),
    ]);
    assert!(state.toggle_expand(0));
    assert!(!state.toggle_expand(1));
    assert!(!state.toggle_expand(2));
    assert!(state.items_ref()[0].is_expanded());
}

#[test]
fn toggle_twice_restores() {
    let mut state = CollapsibleListState::new().items(vec![
        item("a", "A"),
        item("b", "B").expanded(true),
    ]);
    for ix in 0..3 {
        let before: Vec<bool> = state.items_ref().iter().map(|i| i.is_expanded()).collect();
        state.toggle_expand(ix);
        state.toggle_expand(ix);
        let after: Vec<bool> = state.items_ref().iter().map(|i| i.is_expanded()).collect();
        assert_eq!(before, after);
    }
}

#[test]
fn expand_skips_disabled_collapse_does_not() {
    let mut state = CollapsibleListState::new().items(vec![
        item("a", "A"),
        item("b", "B").expanded(true).disabled(true),
        item("c", "C").disabled(true),
    ]);
    assert!(state.expand(0));
    assert!(state.items_ref()[0].is_expanded());
    assert!(!state.expand(2));
    assert!(!state.items_ref()[2].is_expanded());
    assert!(!state.expand(9));

    // Collapsing reaches disabled items too, and reports a redraw for any
    // index in range.
    assert!(state.collapse(1));
    assert!(!state.items_ref()[1].is_expanded());
    assert!(state.collapse(2));
    assert!(!state.collapse(3));
}

#[test]
fn expand_all_and_collapse_all_are_idempotent() {
    let mut state = CollapsibleListState::new().items(vec![
        item("a", "A"),
        item("b", "B").disabled(true),
        item("c", "C").expanded(true).disabled(true),
    ]);
    state.expand_all();
    let once: Vec<bool> = state.items_ref().iter().map(|i| i.is_expanded()).collect();
    assert_eq!(once, vec![true, false, true]);
    state.expand_all();
    let twice: Vec<bool> = state.items_ref().iter().map(|i| i.is_expanded()).collect();
    assert_eq!(once, twice);
    state.collapse_all();
    state.collapse_all();
    assert!(state.items_ref().iter().all(|i| !i.is_expanded()));
    assert!(state.items_ref()[1].is_disabled());
}

#[test]
fn selection() {
    let mut state = CollapsibleListState::new().items(vec![item("a", "A"), item("b", "B")]);
    state.set_selected_index(Some(1));
    assert_eq!(state.selected_index(), Some(1));
    assert_eq!(state.selected_item().map(|i| i.id.clone()), Some("b".to_string()));

    // An index out of range is kept, and selects no item.
    state.set_selected_index(Some(5));
    assert_eq!(state.selected_index(), Some(5));
    assert!(state.selected_item().is_none());

    // Replacing the items clears the selection.
    state.set_items(vec![item("c", "C")]);
    assert_eq!(state.selected_index(), None);
    assert_eq!(state.len(), 1);
    assert_eq!(state.items_ref()[0].label.as_str(), "C");
}

#[test]
fn click_selects_and_toggles() {
    let mut state = CollapsibleListState::new().items(vec![item("a", "A"), item("b", "B").disabled(true)]);
    assert!(state.on_item_click(0));
    assert_eq!(state.selected_index(), Some(0));
    assert!(state.items_ref()[0].is_expanded());
    assert!(!state.on_item_click(1));
    assert_eq!(state.selected_index(), Some(1));
    assert!(!state.items_ref()[1].is_expanded());
}

#[test]
fn item_height_parts_follow_expansion() {
    let state = CollapsibleListState::new().items(vec![
        CollapsibleListItem::new("a", "A", 40u32, 120u32),
        CollapsibleListItem::new("b", "B", 40u32, 120u32).expanded(true),
    ]);
    assert_eq!(state.item_height_parts(), vec![(40, None), (40, Some(120))]);
}

#[test]
fn visible_rows_describe_each_item() {
    let mut state = CollapsibleListState::new().items(vec![
        item("a", "A"),
        item("b", "B").expanded(true),
        item("c", "C").disabled(true),
    ]);
    state.set_selected_index(Some(1));
    let rows = state.visible_rows(1, 3);
    assert_eq!(rows.len(), 2);
    assert!(rows[0].selected && rows[0].expanded && !rows[0].disabled);
    assert!(!rows[1].selected && !rows[1].expanded && rows[1].disabled);
    assert!(state.visible_rows(2, 2).is_empty());
}

#[test]
fn reversed_range_has_no_rows() {
    let state = CollapsibleListState::new().items(vec![item("a", "A"), item("b", "B")]);
    assert!(state.visible_rows(2, 1).is_empty());
    assert!(state.visible_rows(5, 0).is_empty());
}

#[test]
fn clones_have_flags_of_their_own() {
    let a = item("a", "A");
    let b = a.clone();
    let a = a.expanded(true);
    assert!(a.is_expanded());
    assert!(!b.is_expanded());

    let mut state = CollapsibleListState::new().items(vec![b.clone()]);
    state.toggle_expand(0);
    assert!(state.items_ref()[0].is_expanded());
    assert!(!b.is_expanded());
}

#[test]
fn item_getters() {
    let item = CollapsibleListItem::new("id-1", "Label", 40u32, 120u32);
    assert_eq!(item.get_id().as_str(), "id-1");
    assert_eq!(item.get_label().as_str(), "Label");
    assert_eq!(item.get_header_height(), 40);
    assert_eq!(item.get_content_height(), 120);
}

#[test]
fn header_icon_follows_expansion() {
    assert_eq!(default_header_icon(true), HeaderIcon::ChevronDown);
    assert_eq!(default_header_icon(false), HeaderIcon::ChevronRight);
}
