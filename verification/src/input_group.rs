use vstd::prelude::*;

verus! {

/// Padding, in whole logical pixels, that an addon gets on each padded side.
pub const ADDON_PADDING: u32 = 12;

/// Alignment options for an input group addon.
///
/// Determines where the addon is positioned relative to the input element.
#[derive(Debug, Clone, Copy, PartialEq, Eq, Structural, Hash)]
pub enum InputGroupAlign {
    /// Align to the left (inline start) - default
    InlineStart,
    /// Align to the right (inline end)
    InlineEnd,
    /// Align to the top (block start)
    BlockStart,
    /// Align to the bottom (block end)
    BlockEnd,
}

/// The padding of an alignment as `(left, right, top, bottom)`.
pub open spec fn spec_padding(align: InputGroupAlign) -> (u32, u32, u32, u32) {
    match align {
        InputGroupAlign::InlineStart => (ADDON_PADDING, 0, 0, 0),
        InputGroupAlign::InlineEnd => (0, ADDON_PADDING, 0, 0),
        InputGroupAlign::BlockStart => (ADDON_PADDING, ADDON_PADDING, ADDON_PADDING, 0),
        InputGroupAlign::BlockEnd => (ADDON_PADDING, ADDON_PADDING, 0, ADDON_PADDING),
    }
}

/// Whether an alignment stretches the addon over the full width of the group.
pub open spec fn spec_is_full_width(align: InputGroupAlign) -> bool {
    align is BlockStart || align is BlockEnd
}

impl Default for InputGroupAlign {
    fn default() -> (r: Self)
        ensures
            r == InputGroupAlign::InlineStart,
    {
        InputGroupAlign::InlineStart
    }
}

impl InputGroupAlign {
    /// Returns padding configuration for this alignment.
    ///
    /// Returns (left, right, top, bottom) padding in whole logical pixels.
    pub fn padding(&self) -> (r: (u32, u32, u32, u32))
        ensures
            r == spec_padding(*self),
    {
        let padding: u32 = ADDON_PADDING;
        match self {
            InputGroupAlign::InlineStart => (padding, 0, 0, 0),
            InputGroupAlign::InlineEnd => (0, padding, 0, 0),
            InputGroupAlign::BlockStart => (padding, padding, padding, 0),
            InputGroupAlign::BlockEnd => (padding, padding, 0, padding),
        }
    }

    /// Returns whether this alignment should use full width.
    pub fn is_full_width(&self) -> (r: bool)
        ensures
            r == spec_is_full_width(*self),
    {
        matches!(self, InputGroupAlign::BlockStart | InputGroupAlign::BlockEnd)
    }
}


/// The state of an input group that its layout depends on: whether it is
/// disabled.
///
/// What the flag decides is given by [`InputGroup::layout`].
pub struct InputGroup {
    disabled: bool,
}

impl InputGroup {
    /// Creates a new, enabled `InputGroup`.
    pub fn new() -> (r: Self)
        ensures
            !r.is_disabled_spec(),
    {
        InputGroup { disabled: false }
    }

    /// Whether the group is disabled.
    pub closed spec fn is_disabled_spec(&self) -> bool {
        self.disabled
    }

    /// Sets the disabled state.
    pub fn disabled(self, disabled: bool) -> (r: Self)
        ensures
            r.is_disabled_spec() == disabled,
    {
        InputGroup { disabled }
    }

    /// Whether the group is disabled.
    pub fn is_disabled(&self) -> (r: bool)
        ensures
            r == self.is_disabled_spec(),
    {
        self.disabled
    }
}

/// How an input group is drawn: on a muted background, with a not-allowed
/// cursor and swallowing the pointer and key events aimed at its children
/// when disabled; laid out as a centered row of fixed height unless the
/// caller set a flex direction.
#[derive(Debug, Clone, Copy, PartialEq, Eq, Structural)]
pub struct GroupLayout {
    pub muted_background: bool,
    pub cursor_not_allowed: bool,
    pub blocks_events: bool,
    pub default_row_layout: bool,
}

impl InputGroup {
    /// The layout decisions of the group, given whether its style sets a
    /// flex direction.
    pub fn layout(&self, has_flex_direction: bool) -> (r: GroupLayout)
        ensures
            r == (GroupLayout {
                muted_background: self.is_disabled_spec(),
                cursor_not_allowed: self.is_disabled_spec(),
                blocks_events: self.is_disabled_spec(),
                default_row_layout: !has_flex_direction,
            }),
    {
        let disabled = self.disabled;
        GroupLayout {
            muted_background: disabled,
            cursor_not_allowed: disabled,
            blocks_events: disabled,
            default_row_layout: !has_flex_direction,
        }
    }
}

/// The state of an input group addon that its layout depends on: where it
/// is aligned.
pub struct InputGroupAddon {
    align: InputGroupAlign,
}

impl InputGroupAddon {
    /// The alignment of the addon.
    pub closed spec fn align_spec(&self) -> InputGroupAlign {
        self.align
    }

    /// Creates a new `InputGroupAddon`, aligned to the inline start.
    pub fn new() -> (r: Self)
        ensures
            r.align_spec() == InputGroupAlign::InlineStart,
    {
        InputGroupAddon { align: InputGroupAlign::default() }
    }

    /// Sets the alignment of the addon.
    pub fn align(self, align: InputGroupAlign) -> (r: Self)
        ensures
            r.align_spec() == align,
    {
        InputGroupAddon { align }
    }

    /// Sets the alignment to BlockEnd (bottom).
    pub fn block_end(self) -> (r: Self)
        ensures
            r.align_spec() == InputGroupAlign::BlockEnd,
    {
        InputGroupAddon { align: InputGroupAlign::BlockEnd }
    }

    /// Sets the alignment to BlockStart (top).
    pub fn block_start(self) -> (r: Self)
        ensures
            r.align_spec() == InputGroupAlign::BlockStart,
    {
        InputGroupAddon { align: InputGroupAlign::BlockStart }
    }

    /// Sets the alignment to InlineEnd (right).
    pub fn inline_end(self) -> (r: Self)
        ensures
            r.align_spec() == InputGroupAlign::InlineEnd,
    {
        InputGroupAddon { align: InputGroupAlign::InlineEnd }
    }

    /// Sets the alignment to InlineStart (left).
    pub fn inline_start(self) -> (r: Self)
        ensures
            r.align_spec() == InputGroupAlign::InlineStart,
    {
        InputGroupAddon { align: InputGroupAlign::InlineStart }
    }

    /// The alignment of the addon.
    pub fn alignment(&self) -> (r: InputGroupAlign)
        ensures
            r == self.align_spec(),
    {
        self.align
    }
}

impl Default for InputGroupAddon {
    fn default() -> (r: Self)
        ensures
            r.align_spec() == InputGroupAlign::InlineStart,
    {
        Self::new()
    }
}

} // verus!

verus! {

/// An addon is never padded on the side that faces the input: an inline
/// start addon has no right padding, an inline end addon no left padding, a
/// block start addon no bottom padding and a block end addon no top padding.
/// Every alignment pads the outer side it is aligned to.
pub proof fn law_padding_away_from_input(align: InputGroupAlign)
    ensures
        align is InlineStart ==> spec_padding(align).1 == 0 && spec_padding(align).0 > 0,
        align is InlineEnd ==> spec_padding(align).0 == 0 && spec_padding(align).1 > 0,
        align is BlockStart ==> spec_padding(align).3 == 0 && spec_padding(align).2 > 0,
        align is BlockEnd ==> spec_padding(align).2 == 0 && spec_padding(align).3 > 0,
{
}

/// Exactly the full-width alignments are padded on both inline sides.
pub proof fn law_full_width_padded_both_sides(align: InputGroupAlign)
    ensures
        spec_is_full_width(align) <==> (spec_padding(align).0 > 0 && spec_padding(align).1 > 0),
{
}

} // verus!
