//! Tray menus: the platform-independent menu description, its form for
//! StatusNotifierItem hosts, the numbering of its commands for native
//! popup menus, and the tooltip that fits a native tray icon.

use vstd::prelude::*;
use std::collections::HashMap;
use vstd::std_specs::hash::{obeys_key_model, builds_valid_hashers};
use crate::text::owned;

verus! {

broadcast use vstd::std_specs::hash::group_hash_axioms;

/// An item of a tray menu.
#[derive(Debug)]
pub enum TrayMenuItem {
    /// A clickable item that reports `id` when chosen.
    Action { label: String, id: String },
    /// A separator line.
    Separator,
    /// A nested menu.
    Submenu { label: String, items: Vec<TrayMenuItem> },
    /// A check item that reports `id` when chosen.
    Toggle { label: String, checked: bool, id: String },
}

/// The icon name shown next to a checked toggle in StatusNotifierItem menus.
pub const CHECKED_ICON_NAME: &'static str = "checkbox-checked-symbolic";

/// A menu item as offered to a StatusNotifierItem host.
#[derive(Debug)]
pub enum SniMenuItem {
    /// A clickable item; choosing it reports `action_id`.
    Standard { label: String, icon_name: String, action_id: String },
    Separator,
    SubMenu { label: String, items: Vec<SniMenuItem> },
}

/// The StatusNotifierItem form of a menu item: actions and toggles become
/// standard items reporting their id (a checked toggle shows the check
/// icon), submenus keep their items in order.
pub open spec fn sni_item_of(item: TrayMenuItem, out: SniMenuItem) -> bool
    decreases item,
{
    match item {
        TrayMenuItem::Action { label, id } => out matches SniMenuItem::Standard {
            label: l,
            icon_name: icon,
            action_id: a,
        } && l@ == label@ && icon@ == Seq::<char>::empty() && a@ == id@,
        TrayMenuItem::Separator => out is Separator,
        TrayMenuItem::Submenu { label, items } => out matches SniMenuItem::SubMenu {
            label: l,
            items: sub,
        } && l@ == label@ && sub@.len() == items@.len() && forall|k: int|
            0 <= k < items@.len() ==> sni_item_of(#[trigger] items@[k], sub@[k]),
        TrayMenuItem::Toggle { label, checked, id } => out matches SniMenuItem::Standard {
            label: l,
            icon_name: icon,
            action_id: a,
        } && l@ == label@ && icon@ == (if checked {
            CHECKED_ICON_NAME@
        } else {
            Seq::<char>::empty()
        }) && a@ == id@,
    }
}

/// Converts a menu item to its StatusNotifierItem form.
pub fn convert_menu_item(item: &TrayMenuItem) -> (r: SniMenuItem)
    ensures
        sni_item_of(*item, r),
    decreases item,
{
    match item {
        TrayMenuItem::Action { label, id } => SniMenuItem::Standard {
            label: label.clone(),
            icon_name: String::new(),
            action_id: id.clone(),
        },
        TrayMenuItem::Separator => SniMenuItem::Separator,
        TrayMenuItem::Submenu { label, items } => {
            let mut sub: Vec<SniMenuItem> = Vec::new();
            let mut k: usize = 0;
            while k < items.len()
                invariant
                    *item is Submenu,
                    *items == (*item)->items,
                    k <= items@.len(),
                    sub@.len() == k,
                    forall|j: int| 0 <= j < k ==> sni_item_of(#[trigger] items@[j], sub@[j]),
                decreases items@.len() - k,
            {
                proof {
                    assert(decreases_to!(*item => (*item)->items));
                    assert(decreases_to!(*items => items@));
                    assert(decreases_to!(items@ => items@[k as int]));
                }
                let converted = convert_menu_item(&items[k]);
                sub.push(converted);
                k = k + 1;
            }
            SniMenuItem::SubMenu { label: label.clone(), items: sub }
        },
        TrayMenuItem::Toggle { label, checked, id } => SniMenuItem::Standard {
            label: label.clone(),
            icon_name: if *checked {
                owned(CHECKED_ICON_NAME)
            } else {
                String::new()
            },
            action_id: id.clone(),
        },
    }
}

/// The ids reported by the commands of a menu item, in menu order.
pub open spec fn item_commands(item: TrayMenuItem) -> Seq<Seq<char>>
    decreases item, 0nat,
{
    match item {
        TrayMenuItem::Action { id, .. } => seq![id@],
        TrayMenuItem::Separator => Seq::empty(),
        TrayMenuItem::Submenu { items, .. } => {
            proof {
                assert(decreases_to!(item => item->items));
            }
            list_commands(items@, items@.len())
        },
        TrayMenuItem::Toggle { id, .. } => seq![id@],
    }
}

/// The ids reported by the commands of the first `n` items, in menu order.
pub open spec fn list_commands(items: Seq<TrayMenuItem>, n: nat) -> Seq<Seq<char>>
    decreases items, n,
{
    if n == 0 || n > items.len() {
        Seq::empty()
    } else {
        list_commands(items, (n - 1) as nat) + item_commands(items[n - 1])
    }
}

/// An entry of a native popup menu.
#[derive(Debug)]
pub enum NativeMenuEntry {
    /// A command item with its command id, checked or not.
    Command { label: String, command_id: u32, checked: bool },
    Separator,
    /// A submenu.
    Popup { label: String, entries: Vec<NativeMenuEntry> },
}

/// The native form of a menu item whose first command gets the id `first`.
pub open spec fn native_entry_of(item: TrayMenuItem, first: int, entry: NativeMenuEntry) -> bool
    decreases item, 0nat,
{
    match item {
        TrayMenuItem::Action { label, .. } => entry matches NativeMenuEntry::Command {
            label: l,
            command_id: c,
            checked: ch,
        } && l@ == label@ && c == first && !ch,
        TrayMenuItem::Separator => entry is Separator,
        TrayMenuItem::Submenu { label, items } => {
            proof {
                assert(decreases_to!(item => item->items));
            }
            entry matches NativeMenuEntry::Popup { label: l, entries: es } && l@ == label@
                && native_entries_of(items@, first, es@, items@.len())
        },
        TrayMenuItem::Toggle { label, checked, .. } => entry matches NativeMenuEntry::Command {
            label: l,
            command_id: c,
            checked: ch,
        } && l@ == label@ && c == first && ch == checked,
    }
}

/// The first `n` entries are the native forms of the first `n` items, each
/// numbered after the commands of the items before it.
pub open spec fn native_entries_of(
    items: Seq<TrayMenuItem>,
    first: int,
    entries: Seq<NativeMenuEntry>,
    n: nat,
) -> bool
    decreases items, n,
{
    if n == 0 || n > items.len() {
        n == 0
    } else {
        &&& entries.len() >= n
        &&& native_entries_of(items, first, entries, (n - 1) as nat)
        &&& native_entry_of(
            items[n - 1],
            first + list_commands(items, (n - 1) as nat).len(),
            entries[n - 1],
        )
    }
}

/// The command map after numbering `cmds` from `first` over `map`.
pub open spec fn numbered(map: Map<u32, Seq<char>>, first: int, cmds: Seq<Seq<char>>) -> Map<u32, Seq<char>> {
    Map::new(
        |k: u32| map.contains_key(k) || (first <= k < first + cmds.len()),
        |k: u32| if first <= k < first + cmds.len() { cmds[k - first] } else { map[k] },
    )
}

/// The views of a command map.
pub open spec fn command_map_view(m: Map<u32, String>) -> Map<u32, Seq<char>> {
    m.map_values(|s: String| s@)
}

/// Numbers the commands of a tray menu for a native popup menu: each action
/// and toggle, in menu order, gets the next command id from `counter`, and
/// `id_map` learns which item id each command id reports.
pub fn build_menu(items: &Vec<TrayMenuItem>, counter: &mut u32, id_map: &mut HashMap<u32, String>) -> (r:
    Vec<NativeMenuEntry>)
    requires
        *old(counter) + list_commands(items@, items@.len()).len() <= u32::MAX,
    ensures
        *final(counter) == *old(counter) + list_commands(items@, items@.len()).len(),
        command_map_view(final(id_map)@) == numbered(
            command_map_view(old(id_map)@),
            *old(counter) as int,
            list_commands(items@, items@.len()),
        ),
        r@.len() == items@.len(),
        native_entries_of(items@, *old(counter) as int, r@, items@.len()),
    decreases items@, 1nat,
{
    let ghost start = *counter as int;
    let ghost start_map = command_map_view(id_map@);
    let mut entries: Vec<NativeMenuEntry> = Vec::new();
    let mut k: usize = 0;
    while k < items.len()
        invariant
            k <= items@.len(),
            entries@.len() == k,
            start + list_commands(items@, items@.len()).len() <= u32::MAX,
            *counter == start + list_commands(items@, k as nat).len(),
            command_map_view(id_map@) == numbered(start_map, start, list_commands(items@, k as nat)),
            native_entries_of(items@, start, entries@, k as nat),
        decreases items@.len() - k,
    {
        proof {
            lemma_list_commands_prefix(items@, (k + 1) as nat, items@.len());
            assert(decreases_to!(items@ => items@[k as int]));
        }
        let entry = build_menu_item(&items[k], counter, id_map);
        let ghost before = entries@;
        entries.push(entry);
        proof {
            lemma_numbered_append(
                start_map,
                start,
                list_commands(items@, k as nat),
                item_commands(items@[k as int]),
            );
            assert(list_commands(items@, (k + 1) as nat) == list_commands(items@, k as nat)
                + item_commands(items@[k as int]));
            assert(before =~= entries@.subrange(0, k as int));
            lemma_native_entries_extend(items@, start, before, entries@, k as nat);
        }
        k = k + 1;
    }
    entries
}

/// Numbers the commands of one menu item.
fn build_menu_item(item: &TrayMenuItem, counter: &mut u32, id_map: &mut HashMap<u32, String>) -> (r:
    NativeMenuEntry)
    requires
        *old(counter) + item_commands(*item).len() <= u32::MAX,
    ensures
        *final(counter) == *old(counter) + item_commands(*item).len(),
        command_map_view(final(id_map)@) == numbered(
            command_map_view(old(id_map)@),
            *old(counter) as int,
            item_commands(*item),
        ),
        native_entry_of(*item, *old(counter) as int, r),
    decreases *item, 0nat,
{
    assert(obeys_key_model::<u32>());
    assert(builds_valid_hashers::<std::hash::RandomState>());
    match item {
        TrayMenuItem::Action { label, id } => {
            let command_id = *counter;
            *counter = *counter + 1;
            let ghost before = command_map_view(id_map@);
            id_map.insert(command_id, id.clone());
            proof {
                assert(command_map_view(id_map@) =~= numbered(before, command_id as int, seq![id@]));
            }
            NativeMenuEntry::Command { label: label.clone(), command_id, checked: false }
        },
        TrayMenuItem::Separator => {
            proof {
                assert(command_map_view(id_map@) =~= numbered(
                    command_map_view(id_map@),
                    *counter as int,
                    Seq::empty(),
                ));
            }
            NativeMenuEntry::Separator
        },
        TrayMenuItem::Submenu { label, items } => {
            proof {
                assert(decreases_to!(*item => (*item)->items));
                assert(decreases_to!((*item)->items => items@));
            }
            let entries = build_menu(items, counter, id_map);
            NativeMenuEntry::Popup { label: label.clone(), entries }
        },
        TrayMenuItem::Toggle { label, checked, id } => {
            let command_id = *counter;
            *counter = *counter + 1;
            let ghost before = command_map_view(id_map@);
            id_map.insert(command_id, id.clone());
            proof {
                assert(command_map_view(id_map@) =~= numbered(before, command_id as int, seq![id@]));
            }
            NativeMenuEntry::Command { label: label.clone(), command_id, checked: *checked }
        },
    }
}

proof fn lemma_list_commands_prefix(items: Seq<TrayMenuItem>, m: nat, n: nat)
    requires
        m <= n <= items.len(),
    ensures
        list_commands(items, m).len() <= list_commands(items, n).len(),
    decreases n - m,
{
    if m < n {
        lemma_list_commands_prefix(items, m, (n - 1) as nat);
    }
}

proof fn lemma_numbered_append(map: Map<u32, Seq<char>>, first: int, a: Seq<Seq<char>>, b: Seq<Seq<char>>)
    ensures
        numbered(numbered(map, first, a), first + a.len(), b) == numbered(map, first, a + b),
{
    assert(numbered(numbered(map, first, a), first + a.len(), b) =~= numbered(map, first, a + b));
}

proof fn lemma_native_entries_extend(
    items: Seq<TrayMenuItem>,
    first: int,
    before: Seq<NativeMenuEntry>,
    after: Seq<NativeMenuEntry>,
    k: nat,
)
    requires
        k < items.len(),
        after.len() == k + 1,
        before == after.subrange(0, k as int),
        native_entries_of(items, first, before, k),
        native_entry_of(items[k as int], first + list_commands(items, k).len(), after[k as int]),
    ensures
        native_entries_of(items, first, after, k + 1),
{
    lemma_native_entries_prefix(items, first, before, after, k);
}

proof fn lemma_native_entries_prefix(
    items: Seq<TrayMenuItem>,
    first: int,
    before: Seq<NativeMenuEntry>,
    after: Seq<NativeMenuEntry>,
    n: nat,
)
    requires
        n <= before.len() <= after.len(),
        forall|j: int| 0 <= j < before.len() ==> before[j] == after[j],
        native_entries_of(items, first, before, n),
    ensures
        native_entries_of(items, first, after, n),
    decreases n,
{
    if n > 0 && n <= items.len() {
        lemma_native_entries_prefix(items, first, before, after, (n - 1) as nat);
        assert(before[n - 1] == after[n - 1]);
    }
}

/// The most UTF-16 units of a native tray tooltip, including the
/// terminating zero unit.
pub const TOOLTIP_CAPACITY: usize = 128;

/// The most UTF-16 units of a native balloon title, including the
/// terminating zero unit.
pub const BALLOON_TITLE_CAPACITY: usize = 64;

/// The most UTF-16 units of a native balloon text, including the
/// terminating zero unit.
pub const BALLOON_TEXT_CAPACITY: usize = 256;

/// How many UTF-16 units of a text fit in a native text field of
/// `capacity` units: all of them, but at most `capacity - 1`, keeping room
/// for the terminating zero.
pub fn fitted_text_units(text_units: usize, capacity: usize) -> (r: usize)
    requires
        capacity > 0,
    ensures
        r == if text_units < capacity - 1 { text_units } else { (capacity - 1) as usize },
{
    if text_units < capacity - 1 {
        text_units
    } else {
        capacity - 1
    }
}

/// A checked item shows the `checkbox-checked-symbolic` icon; the Windows notify-icon tooltip holds 128 UTF-16 units, a balloon title 64 and a balloon text 256.
pub proof fn law_tray_menu_constants()
    ensures
        CHECKED_ICON_NAME@ == "checkbox-checked-symbolic"@,
        TOOLTIP_CAPACITY == 128,
        BALLOON_TITLE_CAPACITY == 64,
        BALLOON_TEXT_CAPACITY == 256,
{
}

} // verus!
