use gpui_component::input_group::{GroupLayout, InputGroup, InputGroupAddon, InputGroupAlign, ADDON_PADDING};

#[test]
fn default_alignment_is_inline_start() {
    assert_eq!(InputGroupAlign::default(), InputGroupAlign::InlineStart);
    assert_eq!(InputGroupAddon::new().alignment(), InputGroupAlign::InlineStart);
    assert_eq!(InputGroupAddon::default().alignment(), InputGroupAlign::InlineStart);
}

#[test]
fn padding_per_alignment() {
    assert_eq!(ADDON_PADDING, 12);
    assert_eq!(InputGroupAlign::InlineStart.padding(), (12, 0, 0, 0));
    assert_eq!(InputGroupAlign::InlineEnd.padding(), (0, 12, 0, 0));
    assert_eq!(InputGroupAlign::BlockStart.padding(), (12, 12, 12, 0));
    assert_eq!(InputGroupAlign::BlockEnd.padding(), (12, 12, 0, 12));
}

#[test]
fn full_width_alignments() {
    assert!(!InputGroupAlign::InlineStart.is_full_width());
    assert!(!InputGroupAlign::InlineEnd.is_full_width());
    assert!(InputGroupAlign::BlockStart.is_full_width());
    assert!(InputGroupAlign::BlockEnd.is_full_width());
    for align in [
        InputGroupAlign::InlineStart,
        InputGroupAlign::InlineEnd,
        InputGroupAlign::BlockStart,
        InputGroupAlign::BlockEnd,
    ] {
        let (left, right, _, _) = align.padding();
        assert_eq!(align.is_full_width(), left > 0 && right > 0);
    }
}

#[test]
fn addon_alignment_builders() {
    assert_eq!(InputGroupAddon::new().block_end().alignment(), InputGroupAlign::BlockEnd);
    assert_eq!(InputGroupAddon::new().block_start().alignment(), InputGroupAlign::BlockStart);
    assert_eq!(InputGroupAddon::new().inline_end().alignment(), InputGroupAlign::InlineEnd);
    assert_eq!(
        InputGroupAddon::new().inline_end().inline_start().alignment(),
        InputGroupAlign::InlineStart
    );
    assert_eq!(
        InputGroupAddon::new().align(InputGroupAlign::BlockStart).alignment(),
        InputGroupAlign::BlockStart
    );
}

#[test]
fn group_disabled_state() {
    assert!(!InputGroup::new().is_disabled());
    assert!(InputGroup::new().disabled(true).is_disabled());
    assert!(!InputGroup::new().disabled(true).disabled(false).is_disabled());
}

#[test]
fn group_layout_decisions() {
    assert_eq!(
        InputGroup::new().layout(false),
        GroupLayout {
            muted_background: false,
            cursor_not_allowed: false,
            blocks_events: false,
            default_row_layout: true,
        }
    );
    assert_eq!(
        InputGroup::new().disabled(true).layout(true),
        GroupLayout {
            muted_background: true,
            cursor_not_allowed: true,
            blocks_events: true,
            default_row_layout: false,
        }
    );
}
