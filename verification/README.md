# gpui_component (verified core)

Verified state and layout decisions of three UI components, written in Verus:

- `src/collapsible_list.rs`: items of a collapsible list, their expanded and
  disabled flags, the selection, and which heights make up each item's extent.
- `src/input_group.rs`: addon alignment, its padding and width, and the
  disabled flag of an input group and what that flag decides of its layout.
- `src/markdown_cache.rs`: a keyed cache that hands back the state it holds
  for a key instead of making a new one.

`app/` holds the part of the gpui-facing layer that needs only gpui and
smallvec: pixel values and sums, redraw requests, and element children. The
element trees themselves are not in it.
