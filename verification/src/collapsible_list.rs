//! State of a collapsible list: its items, which of them are expanded or
//! disabled, and which one is selected.
//!
//! Heights are carried as an opaque value `H` chosen by the caller (the
//! rendering layer uses logical pixels); the library decides which heights
//! make up an item's extent, and the caller adds them up.
//!
//! Items are values: a clone of an item is equal to it and has expanded and
//! disabled flags of its own. Changing the flags of one clone, or of an item
//! held by a list, leaves every other clone as it is.
use vstd::prelude::*;

verus! {

/// What a collapsible list item holds, as a mathematical value.
pub struct ItemView<H> {
    pub id: Seq<char>,
    pub label: Seq<char>,
    pub header_height: H,
    pub content_height: H,
    pub expanded: bool,
    pub disabled: bool,
}

/// Configuration for an item in the collapsible list.
pub struct CollapsibleListItem<H> {
    /// Unique identifier for this item.
    pub id: String,
    /// Label text for the header.
    pub label: String,
    /// Height of the header portion.
    pub header_height: H,
    /// Height of the content when expanded.
    pub content_height: H,
    expanded: bool,
    disabled: bool,
}

impl<H> View for CollapsibleListItem<H> {
    type V = ItemView<H>;

    closed spec fn view(&self) -> ItemView<H> {
        ItemView {
            id: self.id@,
            label: self.label@,
            header_height: self.header_height,
            content_height: self.content_height,
            expanded: self.expanded,
            disabled: self.disabled,
        }
    }
}

/// `item` with its expanded flag set to `expanded`, all else kept.
pub open spec fn with_expanded<H>(item: ItemView<H>, expanded: bool) -> ItemView<H> {
    ItemView {
        id: item.id,
        label: item.label,
        header_height: item.header_height,
        content_height: item.content_height,
        expanded: expanded,
        disabled: item.disabled,
    }
}

/// `item` with its disabled flag set to `disabled`, all else kept.
pub open spec fn with_disabled<H>(item: ItemView<H>, disabled: bool) -> ItemView<H> {
    ItemView {
        id: item.id,
        label: item.label,
        header_height: item.header_height,
        content_height: item.content_height,
        expanded: item.expanded,
        disabled: disabled,
    }
}

/// The heights that make up an item's extent: its header, and its content
/// exactly when it is expanded.
pub open spec fn height_parts_of<H>(item: ItemView<H>) -> (H, Option<H>) {
    if item.expanded {
        (item.header_height, Some(item.content_height))
    } else {
        (item.header_height, None)
    }
}

impl<H: Copy> Clone for CollapsibleListItem<H> {
    /// A clone is an item equal to this one, with flags of its own.
    fn clone(&self) -> (r: Self)
        ensures
            r@ == self@,
    {
        CollapsibleListItem {
            id: self.id.clone(),
            label: self.label.clone(),
            header_height: self.header_height,
            content_height: self.content_height,
            expanded: self.expanded,
            disabled: self.disabled,
        }
    }
}

/// Which chevron the default header shows: pointing down over an expanded
/// item, pointing right over a collapsed one.
#[derive(Debug, Clone, Copy, PartialEq, Eq, Structural)]
pub enum HeaderIcon {
    ChevronDown,
    ChevronRight,
}

/// The chevron of the default header of an item.
pub fn default_header_icon(expanded: bool) -> (r: HeaderIcon)
    ensures
        r == (if expanded {
            HeaderIcon::ChevronDown
        } else {
            HeaderIcon::ChevronRight
        }),
{
    if expanded {
        HeaderIcon::ChevronDown
    } else {
        HeaderIcon::ChevronRight
    }
}

impl<H: Copy> CollapsibleListItem<H> {
    /// Create a new, collapsed and enabled item with the given heights.
    ///
    /// - `id` - Unique identifier for this item.
    /// - `label` - Display label for the header.
    pub fn new(id: &str, label: &str, header_height: H, content_height: H) -> (r: Self)
        ensures
            r@ == (ItemView {
                id: id@,
                label: label@,
                header_height: header_height,
                content_height: content_height,
                expanded: false,
                disabled: false,
            }),
    {
        CollapsibleListItem {
            id: id.to_owned(),
            label: label.to_owned(),
            header_height,
            content_height,
            expanded: false,
            disabled: false,
        }
    }

    /// Set the header height.
    pub fn header_height(self, height: H) -> (r: Self)
        ensures
            r@ == (ItemView { header_height: height, ..self@ }),
    {
        let mut this = self;
        this.header_height = height;
        this
    }

    /// Set the content height when expanded.
    pub fn content_height(self, height: H) -> (r: Self)
        ensures
            r@ == (ItemView { content_height: height, ..self@ }),
    {
        let mut this = self;
        this.content_height = height;
        this
    }

    /// Set the initial expanded state.
    pub fn expanded(self, expanded: bool) -> (r: Self)
        ensures
            r@ == with_expanded(self@, expanded),
    {
        let mut this = self;
        this.expanded = expanded;
        this
    }

    /// Set the disabled state.
    pub fn disabled(self, disabled: bool) -> (r: Self)
        ensures
            r@ == with_disabled(self@, disabled),
    {
        let mut this = self;
        this.disabled = disabled;
        this
    }

    /// The identifier of this item.
    pub fn get_id(&self) -> (r: &String)
        ensures
            r@ == self@.id,
    {
        &self.id
    }

    /// The label of this item.
    pub fn get_label(&self) -> (r: &String)
        ensures
            r@ == self@.label,
    {
        &self.label
    }

    /// The height of the header portion.
    pub fn get_header_height(&self) -> (r: H)
        ensures
            r == self@.header_height,
    {
        self.header_height
    }

    /// The height of the content when expanded.
    pub fn get_content_height(&self) -> (r: H)
        ensures
            r == self@.content_height,
    {
        self.content_height
    }

    /// Check if this item is expanded.
    pub fn is_expanded(&self) -> (r: bool)
        ensures
            r == self@.expanded,
    {
        self.expanded
    }

    /// Check if this item is disabled.
    pub fn is_disabled(&self) -> (r: bool)
        ensures
            r == self@.disabled,
    {
        self.disabled
    }

    /// The heights whose sum is the total height of this item: the header
    /// height, and the content height when the item is expanded.
    pub fn height_parts(&self) -> (r: (H, Option<H>))
        ensures
            r == height_parts_of(self@),
    {
        if self.is_expanded() {
            (self.header_height, Some(self.content_height))
        } else {
            (self.header_height, None)
        }
    }

    /// Toggle the expanded state.
    pub fn toggle(&mut self)
        ensures
            final(self)@ == with_expanded(old(self)@, !old(self)@.expanded),
    {
        self.expanded = !self.expanded;
    }

    /// Set the expanded state.
    fn set_expanded(&mut self, expanded: bool)
        ensures
            final(self)@ == with_expanded(old(self)@, expanded),
    {
        self.expanded = expanded;
    }
}


/// What a collapsible list state holds, as a mathematical value.
pub struct ListView<H> {
    pub items: Seq<ItemView<H>>,
    pub selected: Option<usize>,
}

/// The views of a sequence of items.
pub open spec fn views_of<H>(items: Seq<CollapsibleListItem<H>>) -> Seq<ItemView<H>> {
    items.map_values(|item: CollapsibleListItem<H>| item@)
}

/// Whether the item at `ix` exists and can change its expanded state.
pub open spec fn can_expand<H>(items: Seq<ItemView<H>>, ix: int) -> bool {
    0 <= ix < items.len() && !items[ix].disabled
}

/// The items after toggling the item at `ix`: an item out of range or
/// disabled leaves them unchanged.
pub open spec fn toggled_at<H>(items: Seq<ItemView<H>>, ix: int) -> Seq<ItemView<H>> {
    if can_expand(items, ix) {
        items.update(ix, with_expanded(items[ix], !items[ix].expanded))
    } else {
        items
    }
}

/// The items after expanding the item at `ix`: an item out of range or
/// disabled leaves them unchanged.
pub open spec fn expanded_at<H>(items: Seq<ItemView<H>>, ix: int) -> Seq<ItemView<H>> {
    if can_expand(items, ix) {
        items.update(ix, with_expanded(items[ix], true))
    } else {
        items
    }
}

/// The items after collapsing the item at `ix`, disabled or not: an index
/// out of range leaves them unchanged.
pub open spec fn collapsed_at<H>(items: Seq<ItemView<H>>, ix: int) -> Seq<ItemView<H>> {
    if 0 <= ix < items.len() {
        items.update(ix, with_expanded(items[ix], false))
    } else {
        items
    }
}

/// The items after expanding every item that is not disabled.
pub open spec fn all_expanded<H>(items: Seq<ItemView<H>>) -> Seq<ItemView<H>> {
    Seq::new(
        items.len(),
        |i: int|
            if items[i].disabled {
                items[i]
            } else {
                with_expanded(items[i], true)
            },
    )
}

/// The items after collapsing every item, disabled ones too.
pub open spec fn all_collapsed<H>(items: Seq<ItemView<H>>) -> Seq<ItemView<H>> {
    Seq::new(items.len(), |i: int| with_expanded(items[i], false))
}

/// How one row of the list is drawn: whether it is the selected row, whether
/// its content is shown below its header, and whether it ignores clicks.
#[derive(Debug, Clone, Copy, PartialEq, Eq, Structural)]
pub struct ListRow {
    pub selected: bool,
    pub expanded: bool,
    pub disabled: bool,
}

/// The row of item `ix` in `list`.
pub open spec fn row_of<H>(list: ListView<H>, ix: int) -> ListRow {
    ListRow {
        selected: list.selected == Some(ix as usize),
        expanded: list.items[ix].expanded,
        disabled: list.items[ix].disabled,
    }
}

/// State for managing collapsible list items.
pub struct CollapsibleListState<H> {
    items: Vec<CollapsibleListItem<H>>,
    selected_ix: Option<usize>,
}

impl<H> View for CollapsibleListState<H> {
    type V = ListView<H>;

    closed spec fn view(&self) -> ListView<H> {
        ListView { items: views_of(self.items@), selected: self.selected_ix }
    }
}

impl<H: Copy> CollapsibleListState<H> {
    proof fn lemma_view_items(&self)
        ensures
            self@.items.len() == self.items@.len(),
            forall|i: int| 0 <= i < self.items@.len() ==> #[trigger] self@.items[i] == self.items@[i]@,
    {
    }

    /// Create a new empty collapsible list state.
    pub fn new() -> (r: Self)
        ensures
            r@.items == Seq::<ItemView<H>>::empty(),
            r@.selected is None,
    {
        let r = CollapsibleListState { items: Vec::new(), selected_ix: None };
        assert(r@.items =~= Seq::<ItemView<H>>::empty());
        r
    }

    /// Set the items for this list.
    pub fn items(self, items: Vec<CollapsibleListItem<H>>) -> (r: Self)
        ensures
            r@.items == views_of(items@),
            r@.selected == self@.selected,
    {
        let mut this = self;
        this.items = items;
        this
    }

    /// Set the items for this list, clearing the selection.
    pub fn set_items(&mut self, items: Vec<CollapsibleListItem<H>>)
        ensures
            final(self)@.items == views_of(items@),
            final(self)@.selected is None,
    {
        self.items = items;
        self.selected_ix = None;
    }

    /// Get all items.
    pub fn items_ref(&self) -> (r: &[CollapsibleListItem<H>])
        ensures
            views_of(r@) == self@.items,
    {
        self.items.as_slice()
    }

    /// Get the number of items.
    pub fn len(&self) -> (r: usize)
        ensures
            r == self@.items.len(),
    {
        self.items.len()
    }

    /// Check if the list is empty.
    pub fn is_empty(&self) -> (r: bool)
        ensures
            r == (self@.items.len() == 0),
    {
        self.items.len() == 0
    }

    /// Get the currently selected index.
    pub fn selected_index(&self) -> (r: Option<usize>)
        ensures
            r == self@.selected,
    {
        self.selected_ix
    }

    /// Set the selected index.
    pub fn set_selected_index(&mut self, ix: Option<usize>)
        ensures
            final(self)@.items == old(self)@.items,
            final(self)@.selected == ix,
    {
        self.selected_ix = ix;
    }

    /// Get the selected item: none when nothing is selected or the selected
    /// index is out of range.
    pub fn selected_item(&self) -> (r: Option<&CollapsibleListItem<H>>)
        ensures
            match self@.selected {
                Some(ix) => if ix < self@.items.len() {
                    r matches Some(item) && item@ == self@.items[ix as int]
                } else {
                    r is None
                },
                None => r is None,
            },
    {
        match self.selected_ix {
            Some(ix) => {
                if ix < self.items.len() {
                    Some(&self.items[ix])
                } else {
                    None
                }
            },
            None => None,
        }
    }

    /// Toggle the expanded state of an item at the given index.
    ///
    /// A disabled item, or an index out of range, changes nothing. Returns
    /// whether the state changed, that is whether the list must be redrawn.
    pub fn toggle_expand(&mut self, ix: usize) -> (changed: bool)
        ensures
            changed == can_expand(old(self)@.items, ix as int),
            final(self)@.items == toggled_at(old(self)@.items, ix as int),
            final(self)@.selected == old(self)@.selected,
    {
        proof {
            self.lemma_view_items();
        }
        if ix < self.items.len() && !self.items[ix].is_disabled() {
            self.items[ix].toggle();
            proof {
                self.lemma_view_items();
                assert(self@.items =~= toggled_at(old(self)@.items, ix as int));
            }
            true
        } else {
            false
        }
    }

    /// Expand an item at the given index.
    ///
    /// A disabled item, or an index out of range, changes nothing. Returns
    /// whether the list must be redrawn.
    pub fn expand(&mut self, ix: usize) -> (changed: bool)
        ensures
            changed == can_expand(old(self)@.items, ix as int),
            final(self)@.items == expanded_at(old(self)@.items, ix as int),
            final(self)@.selected == old(self)@.selected,
    {
        proof {
            self.lemma_view_items();
        }
        if ix < self.items.len() && !self.items[ix].is_disabled() {
            self.items[ix].set_expanded(true);
            proof {
                self.lemma_view_items();
                assert(self@.items =~= expanded_at(old(self)@.items, ix as int));
            }
            true
        } else {
            false
        }
    }

    /// Collapse an item at the given index, disabled or not.
    ///
    /// An index out of range changes nothing. Returns whether the list must
    /// be redrawn: whenever the index is in range.
    pub fn collapse(&mut self, ix: usize) -> (changed: bool)
        ensures
            changed == (ix < old(self)@.items.len()),
            final(self)@.items == collapsed_at(old(self)@.items, ix as int),
            final(self)@.selected == old(self)@.selected,
    {
        proof {
            self.lemma_view_items();
        }
        if ix < self.items.len() {
            self.items[ix].set_expanded(false);
            proof {
                self.lemma_view_items();
                assert(self@.items =~= collapsed_at(old(self)@.items, ix as int));
            }
            true
        } else {
            false
        }
    }

    /// Expand all items that are not disabled.
    pub fn expand_all(&mut self)
        ensures
            final(self)@.items == all_expanded(old(self)@.items),
            final(self)@.selected == old(self)@.selected,
    {
        proof {
            self.lemma_view_items();
        }
        let ghost start = self@.items;
        let n = self.items.len();
        let mut i: usize = 0;
        while i < n
            invariant
                0 <= i <= n,
                n == self.items@.len(),
                start.len() == n,
                self.selected_ix == old(self)@.selected,
                forall|j: int|
                    0 <= j < i ==> #[trigger] self.items@[j]@ == all_expanded(start)[j],
                forall|j: int| i <= j < n ==> #[trigger] self.items@[j]@ == start[j],
            decreases n - i,
        {
            if !self.items[i].is_disabled() {
                self.items[i].set_expanded(true);
            }
            i = i + 1;
        }
        proof {
            self.lemma_view_items();
            assert(self@.items =~= all_expanded(start));
        }
    }

    /// Collapse all items, disabled ones too.
    pub fn collapse_all(&mut self)
        ensures
            final(self)@.items == all_collapsed(old(self)@.items),
            final(self)@.selected == old(self)@.selected,
    {
        proof {
            self.lemma_view_items();
        }
        let ghost start = self@.items;
        let n = self.items.len();
        let mut i: usize = 0;
        while i < n
            invariant
                0 <= i <= n,
                n == self.items@.len(),
                start.len() == n,
                self.selected_ix == old(self)@.selected,
                forall|j: int|
                    0 <= j < i ==> #[trigger] self.items@[j]@ == all_collapsed(start)[j],
                forall|j: int| i <= j < n ==> #[trigger] self.items@[j]@ == start[j],
            decreases n - i,
        {
            self.items[i].set_expanded(false);
            i = i + 1;
        }
        proof {
            self.lemma_view_items();
            assert(self@.items =~= all_collapsed(start));
        }
    }

    /// A click on the item at `ix`: selects it and toggles its expanded
    /// state. Returns whether the expanded state changed.
    pub fn on_item_click(&mut self, ix: usize) -> (changed: bool)
        ensures
            changed == can_expand(old(self)@.items, ix as int),
            final(self)@.items == toggled_at(old(self)@.items, ix as int),
            final(self)@.selected == Some(ix),
    {
        self.selected_ix = Some(ix);
        self.toggle_expand(ix)
    }

    /// The rows of the items with indices in `start..end`, the range that a
    /// virtual list shows, in order. An empty or reversed range has no rows.
    pub fn visible_rows(&self, start: usize, end: usize) -> (r: Vec<ListRow>)
        requires
            start < end ==> end <= self@.items.len(),
        ensures
            r@.len() == (if start <= end {
                end - start
            } else {
                0
            }),
            forall|k: int| 0 <= k < r@.len() ==> #[trigger] r@[k] == row_of(self@, start + k),
    {
        proof {
            self.lemma_view_items();
        }
        let mut rows: Vec<ListRow> = Vec::new();
        if end <= start {
            return rows;
        }
        let mut ix: usize = start;
        while ix < end
            invariant
                start <= ix <= end,
                end <= self.items@.len(),
                rows@.len() == ix - start,
                forall|j: int| 0 <= j < self.items@.len() ==> #[trigger] self@.items[j] == self.items@[j]@,
                forall|k: int| 0 <= k < rows@.len() ==> #[trigger] rows@[k] == row_of(self@, start + k),
            decreases end - ix,
        {
            let selected = match self.selected_ix {
                Some(sel) => sel == ix,
                None => false,
            };
            let item = &self.items[ix];
            rows.push(ListRow { selected, expanded: item.is_expanded(), disabled: item.is_disabled() });
            ix = ix + 1;
        }
        rows
    }

    /// The heights that make up each item's extent, in list order: for the
    /// virtual list, the size of item `i` is the sum of entry `i`.
    pub fn item_height_parts(&self) -> (r: Vec<(H, Option<H>)>)
        ensures
            r@.len() == self@.items.len(),
            forall|i: int| 0 <= i < r@.len() ==> #[trigger] r@[i] == height_parts_of(self@.items[i]),
    {
        proof {
            self.lemma_view_items();
        }
        let n = self.items.len();
        let mut parts: Vec<(H, Option<H>)> = Vec::new();
        let mut i: usize = 0;
        while i < n
            invariant
                0 <= i <= n,
                n == self.items@.len(),
                n == self@.items.len(),
                parts@.len() == i,
                forall|j: int| 0 <= j < self.items@.len() ==> #[trigger] self@.items[j] == self.items@[j]@,
                forall|j: int| 0 <= j < i ==> #[trigger] parts@[j] == height_parts_of(self@.items[j]),
            decreases n - i,
        {
            parts.push(self.items[i].height_parts());
            i = i + 1;
        }
        parts
    }
}

} // verus!

verus! {

/// Toggling the same item twice gives back the list it started from.
pub proof fn law_toggle_twice_restores<H>(items: Seq<ItemView<H>>, ix: int)
    ensures
        toggled_at(toggled_at(items, ix), ix) == items,
{
    if can_expand(items, ix) {
        assert(toggled_at(toggled_at(items, ix), ix) =~= items);
    }
}

/// A disabled item is left as it is by a toggle, an expand or an expand of
/// all items.
pub proof fn law_disabled_items_unaffected<H>(items: Seq<ItemView<H>>, ix: int, j: int)
    requires
        0 <= j < items.len(),
        items[j].disabled,
    ensures
        toggled_at(items, ix)[j] == items[j],
        expanded_at(items, ix)[j] == items[j],
        all_expanded(items)[j] == items[j],
{
}

/// Expanding, collapsing or toggling items changes nothing but expanded
/// flags: the number of items, and each item's id, label, heights and
/// disabled flag stay as they were.
pub proof fn law_only_expanded_flags_change<H>(items: Seq<ItemView<H>>, ix: int, j: int)
    requires
        0 <= j < items.len(),
    ensures
        toggled_at(items, ix).len() == items.len(),
        expanded_at(items, ix).len() == items.len(),
        collapsed_at(items, ix).len() == items.len(),
        all_expanded(items).len() == items.len(),
        all_collapsed(items).len() == items.len(),
        toggled_at(items, ix)[j] == with_expanded(items[j], toggled_at(items, ix)[j].expanded),
        expanded_at(items, ix)[j] == with_expanded(items[j], expanded_at(items, ix)[j].expanded),
        collapsed_at(items, ix)[j] == with_expanded(items[j], collapsed_at(items, ix)[j].expanded),
        all_expanded(items)[j] == with_expanded(items[j], all_expanded(items)[j].expanded),
        all_collapsed(items)[j] == with_expanded(items[j], all_collapsed(items)[j].expanded),
{
}

/// After expanding all items every item that is not disabled is expanded;
/// after collapsing all items none is.
pub proof fn law_expand_all_collapse_all<H>(items: Seq<ItemView<H>>, j: int)
    requires
        0 <= j < items.len(),
    ensures
        !items[j].disabled ==> all_expanded(items)[j].expanded,
        !all_collapsed(items)[j].expanded,
{
}

/// Expanding all items, or collapsing all items, a second time changes
/// nothing.
pub proof fn law_expand_all_collapse_all_idempotent<H>(items: Seq<ItemView<H>>)
    ensures
        all_expanded(all_expanded(items)) == all_expanded(items),
        all_collapsed(all_collapsed(items)) == all_collapsed(items),
{
    assert(all_expanded(all_expanded(items)) =~= all_expanded(items));
    assert(all_collapsed(all_collapsed(items)) =~= all_collapsed(items));
}

/// An enabled item that is expanded and then collapsed is collapsed, and a
/// collapsed enabled item that is toggled is expanded.
pub proof fn law_expand_collapse_toggle<H>(items: Seq<ItemView<H>>, ix: int)
    requires
        can_expand(items, ix),
    ensures
        expanded_at(items, ix)[ix].expanded,
        !collapsed_at(expanded_at(items, ix), ix)[ix].expanded,
        toggled_at(items, ix)[ix].expanded == !items[ix].expanded,
{
}

/// An item's extent is its header alone when collapsed, and its header and
/// its content when expanded.
pub proof fn law_height_parts<H>(item: ItemView<H>)
    ensures
        height_parts_of(item).0 == item.header_height,
        height_parts_of(item).1 == (if item.expanded {
            Some(item.content_height)
        } else {
            None
        }),
{
}

} // verus!

verus! {

/// Clones are independent: a clone taken of the item at `ix` before that
/// item is toggled through its list keeps the flag it was taken with, while
/// the item in the list has the flipped flag; and setting the expanded flag
/// of a clone leaves the item it was taken from as it was.
pub proof fn law_clones_are_independent<H>(items: Seq<ItemView<H>>, ix: int, clone: ItemView<H>, x: bool)
    requires
        can_expand(items, ix),
        clone == items[ix],
    ensures
        toggled_at(items, ix)[ix].expanded == !items[ix].expanded,
        toggled_at(items, ix)[ix].expanded != clone.expanded,
        with_expanded(clone, x).expanded == x,
        items[ix].expanded == clone.expanded,
{
}

} // verus!

verus! {

/// Toggling the item at `ix` flips that item's expanded flag when it exists
/// and is enabled, and changes nothing else: every other item, the number of
/// items, and the toggled item's id, label, heights and disabled flag stay as
/// they were. A disabled item or an index out of range changes nothing.
pub proof fn law_toggle_changes_only_that_item<H>(items: Seq<ItemView<H>>, ix: int)
    ensures
        toggled_at(items, ix).len() == items.len(),
        forall|j: int| 0 <= j < items.len() && j != ix ==> #[trigger] toggled_at(items, ix)[j] == items[j],
        0 <= ix < items.len() && !items[ix].disabled ==> {
            &&& toggled_at(items, ix)[ix].expanded == !items[ix].expanded
            &&& toggled_at(items, ix)[ix].id == items[ix].id
            &&& toggled_at(items, ix)[ix].label == items[ix].label
            &&& toggled_at(items, ix)[ix].header_height == items[ix].header_height
            &&& toggled_at(items, ix)[ix].content_height == items[ix].content_height
            &&& toggled_at(items, ix)[ix].disabled == items[ix].disabled
        },
        !(0 <= ix < items.len() && !items[ix].disabled) ==> toggled_at(items, ix) == items,
{
}

/// Expanding the item at `ix` leaves it expanded when it exists and is
/// enabled, and changes nothing else: every other item keeps its flags,
/// expanded ones included, and the item keeps its id, label, heights and
/// disabled flag. A disabled item or an index out of range changes nothing.
pub proof fn law_expand_changes_only_that_item<H>(items: Seq<ItemView<H>>, ix: int)
    ensures
        expanded_at(items, ix).len() == items.len(),
        forall|j: int| 0 <= j < items.len() && j != ix ==> #[trigger] expanded_at(items, ix)[j] == items[j],
        0 <= ix < items.len() && !items[ix].disabled ==> {
            &&& expanded_at(items, ix)[ix].expanded
            &&& expanded_at(items, ix)[ix].id == items[ix].id
            &&& expanded_at(items, ix)[ix].label == items[ix].label
            &&& expanded_at(items, ix)[ix].header_height == items[ix].header_height
            &&& expanded_at(items, ix)[ix].content_height == items[ix].content_height
            &&& !expanded_at(items, ix)[ix].disabled
        },
        !(0 <= ix < items.len() && !items[ix].disabled) ==> expanded_at(items, ix) == items,
{
}

/// Collapsing the item at `ix` leaves it not expanded, whatever it was
/// before and whether or not it is disabled, and changes nothing else: every
/// other item stays as it was, and the item keeps its id, label, heights and
/// disabled flag. An index out of range changes nothing.
pub proof fn law_collapse_changes_only_that_item<H>(items: Seq<ItemView<H>>, ix: int)
    ensures
        collapsed_at(items, ix).len() == items.len(),
        forall|j: int| 0 <= j < items.len() && j != ix ==> #[trigger] collapsed_at(items, ix)[j] == items[j],
        0 <= ix < items.len() ==> {
            &&& !collapsed_at(items, ix)[ix].expanded
            &&& collapsed_at(items, ix)[ix].id == items[ix].id
            &&& collapsed_at(items, ix)[ix].label == items[ix].label
            &&& collapsed_at(items, ix)[ix].header_height == items[ix].header_height
            &&& collapsed_at(items, ix)[ix].content_height == items[ix].content_height
            &&& collapsed_at(items, ix)[ix].disabled == items[ix].disabled
        },
        !(0 <= ix < items.len()) ==> collapsed_at(items, ix) == items,
{
}

/// A row shows its item's content exactly when the item is expanded, disabled
/// or not; it is disabled exactly when its item is, and selected exactly when
/// the list's selection is its index.
pub proof fn law_row_follows_item<H>(list: ListView<H>, ix: int)
    requires
        0 <= ix < list.items.len(),
    ensures
        row_of(list, ix).expanded == list.items[ix].expanded,
        row_of(list, ix).disabled == list.items[ix].disabled,
        row_of(list, ix).selected == (list.selected == Some(ix as usize)),
        list.items[ix].expanded && list.items[ix].disabled ==> row_of(list, ix).expanded,
{
}

} // verus!
