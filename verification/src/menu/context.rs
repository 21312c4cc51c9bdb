use vstd::prelude::*;

use super::menu_item::MenuItem;

verus! {

/// An entry of a native context menu.
#[derive(Debug, Clone)]
pub enum NativeMenuEntry {
    /// An entry that performs an action: it shows `title`, carries `tag`, and is shown
    /// checked when `is_on`.
    Action { title: String, tag: isize, is_on: bool },
    /// A separator.
    Separator,
}

/// The native entries of a context menu, in order, and the entry to position the menu
/// at, if any.
#[derive(Debug, Clone)]
pub struct ContextMenuPlan {
    /// The entries, one for each item of the menu.
    pub entries: Vec<NativeMenuEntry>,
    /// The index of the entry that the menu is positioned at.
    pub selected_entry: Option<usize>,
}

/// The tag that a native entry carries for an item with the given ID.
pub open spec fn spec_tag_for_id(id: u64) -> isize {
    id as isize
}

/// The ID that a native entry's tag reports back.
pub open spec fn spec_id_for_tag(tag: isize) -> u64 {
    tag as u64
}

/// Whether `entry` is the native entry for `item`.
pub open spec fn is_entry_for(item: MenuItem, entry: NativeMenuEntry) -> bool {
    match item {
        MenuItem::Action(a) => {
            &&& entry is Action
            &&& entry->title@ == a.title@
            &&& entry->tag == spec_tag_for_id(a.id)
            &&& entry->is_on == a.is_selected
        },
        MenuItem::Separator => entry is Separator,
    }
}

/// The index of the last selected action item of `items`, if any.
pub open spec fn last_selected(items: Seq<MenuItem>) -> Option<int>
    decreases items.len(),
{
    if items.len() == 0 {
        None
    } else if items.last() matches MenuItem::Action(a) && a.is_selected {
        Some(items.len() - 1)
    } else {
        last_selected(items.drop_last())
    }
}

/// Whether `item` is an action item that is selected.
pub open spec fn is_selected_action(item: MenuItem) -> bool {
    item matches MenuItem::Action(a) && a.is_selected
}

/// The menu is positioned at the last selected action item, whatever items follow it:
/// when the item at `i` is a selected action and no later item is, `last_selected` is
/// `i`; and it is `None` exactly when no item is a selected action.
pub proof fn lemma_last_selected_is_last_selected_item(items: Seq<MenuItem>)
    ensures
        forall|i: int|
            0 <= i < items.len() && is_selected_action(#[trigger] items[i]) && (forall|j: int|
                i < j < items.len() ==> !is_selected_action(items[j])) ==> last_selected(items)
                == Some(i),
        last_selected(items) is None <==> forall|i: int|
            0 <= i < items.len() ==> !is_selected_action(#[trigger] items[i]),
    decreases items.len(),
{
    if items.len() > 0 {
        let rest = items.drop_last();
        lemma_last_selected_is_last_selected_item(rest);
        assert forall|i: int|
            0 <= i < items.len() && is_selected_action(#[trigger] items[i]) && (forall|j: int|
                i < j < items.len() ==> !is_selected_action(items[j])) implies last_selected(items)
            == Some(i) by {
            if i < items.len() - 1 {
                assert(!is_selected_action(items[items.len() - 1]));
                assert(rest[i] == items[i]);
                assert forall|j: int| i < j < rest.len() implies !is_selected_action(rest[j]) by {
                    assert(rest[j] == items[j]);
                }
            }
        }
        if last_selected(items) is None {
            assert forall|i: int| 0 <= i < items.len() implies !is_selected_action(
                #[trigger] items[i],
            ) by {
                if i < items.len() - 1 {
                    assert(rest[i] == items[i]);
                }
            }
        }
        if forall|i: int| 0 <= i < items.len() ==> !is_selected_action(#[trigger] items[i]) {
            assert(!is_selected_action(items[items.len() - 1]));
            assert forall|i: int| 0 <= i < rest.len() implies !is_selected_action(
                #[trigger] rest[i],
            ) by {
                assert(rest[i] == items[i]);
            }
        }
    }
}

/// Whether `selected` holds the index `expected` holds.
pub open spec fn same_index(selected: Option<usize>, expected: Option<int>) -> bool {
    match selected {
        Some(i) => expected == Some(i as int),
        None => expected is None,
    }
}

/// The tag that the native entry for an item with ID `id` carries.
pub fn tag_for_id(id: u64) -> (tag: isize)
    ensures
        tag == spec_tag_for_id(id),
{
    id as isize
}

/// The ID to report when the native entry with tag `tag` is chosen.
pub fn id_for_tag(tag: isize) -> (id: u64)
    ensures
        id == spec_id_for_tag(tag),
{
    tag as u64
}

/// Builds the native entries of a context menu with `items`: one entry per item, in order;
/// the menu is positioned at the last selected action item.
pub fn context_menu_plan(items: &Vec<MenuItem>) -> (plan: ContextMenuPlan)
    ensures
        plan.entries@.len() == items@.len(),
        forall|i: int|
            0 <= i < items@.len() ==> is_entry_for(#[trigger] items@[i], plan.entries@[i]),
        same_index(plan.selected_entry, last_selected(items@)),
{
    let mut entries: Vec<NativeMenuEntry> = Vec::new();
    let mut selected_entry: Option<usize> = None;
    let n = items.len();
    for i in 0..n
        invariant
            n == items@.len(),
            entries@.len() == i,
            forall|j: int| 0 <= j < i ==> is_entry_for(#[trigger] items@[j], entries@[j]),
            same_index(selected_entry, last_selected(items@.take(i as int))),
    {
        assert(items@.take(i + 1).drop_last() =~= items@.take(i as int));
        match &items[i] {
            MenuItem::Action(action_item) => {
                let tag = tag_for_id(action_item.id);
                entries.push(
                    NativeMenuEntry::Action {
                        title: action_item.title.clone(),
                        tag,
                        is_on: action_item.is_selected,
                    },
                );
                if action_item.is_selected {
                    selected_entry = Some(i);
                }
            },
            MenuItem::Separator => {
                entries.push(NativeMenuEntry::Separator);
            },
        }
    }
    assert(items@.take(n as int) =~= items@);
    ContextMenuPlan { entries, selected_entry }
}

/// An ID reported back by a native entry is the ID of the item it was built for: for
/// every ID where `isize` has 64 bits, and for IDs up to `isize::MAX` elsewhere.
pub proof fn lemma_tag_round_trip(id: u64)
    requires
        usize::BITS == 64 || id <= isize::MAX,
    ensures
        spec_id_for_tag(spec_tag_for_id(id)) == id,
{
    if usize::BITS == 64 {
        assert(((id as isize) as u64) == id) by (bit_vector)
            requires
                usize::BITS == 64,
        ;
    }
}

/// The kinds of mouse event that matter around a context menu.
#[derive(Debug, Clone, Copy, PartialEq, Eq, Structural)]
pub enum MouseEventKind {
    /// The left button went down.
    LeftMouseDown,
    /// The right button went down.
    RightMouseDown,
    /// The left button went up.
    LeftMouseUp,
    /// The right button went up.
    RightMouseUp,
    /// Any other event.
    Other,
}

/// The mouse-up event to send after a context menu shown on the event `current`: a menu
/// shown on a mouse down swallows the matching mouse up, so one for the same button is
/// sent; after any other event, none is.
pub fn mouse_up_after_menu(current: MouseEventKind) -> (up: Option<MouseEventKind>)
    ensures
        current == MouseEventKind::LeftMouseDown ==> up == Some(MouseEventKind::LeftMouseUp),
        current == MouseEventKind::RightMouseDown ==> up == Some(MouseEventKind::RightMouseUp),
        current != MouseEventKind::LeftMouseDown && current != MouseEventKind::RightMouseDown
            ==> up is None,
{
    match current {
        MouseEventKind::LeftMouseDown => Some(MouseEventKind::LeftMouseUp),
        MouseEventKind::RightMouseDown => Some(MouseEventKind::RightMouseUp),
        _ => None,
    }
}

} // verus!
