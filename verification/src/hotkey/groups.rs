//! Which shortcuts the settings assign, under which numbers.

use vstd::prelude::*;

use crate::hotkey::grammar::parsed;
use crate::hotkey::HotkeyCombo;
use crate::model::{assigned_text, Hotkeys, GROUP_OPEN_SLOTS};

verus! {

pub const EDIT_HOTKEY_ID: i32 = 1;

pub const TOGGLE_ALL_HOTKEY_ID: i32 = 2;

pub const MUTE_ALL_HOTKEY_ID: i32 = 3;

pub const PIN_FOCUSED_HOTKEY_ID: i32 = 4;

/// The keys that control a video under the cursor, held only meanwhile.
pub const MEDIA_PLAY_PAUSE_HOTKEY_ID: i32 = 5;

pub const MEDIA_VOLUME_UP_HOTKEY_ID: i32 = 6;

pub const MEDIA_VOLUME_DOWN_HOTKEY_ID: i32 = 7;

/// The number of the shortcut that opens the first group; the others follow.
pub const GROUP_OPEN_HOTKEY_ID_BASE: i32 = 8;

pub const GROUP_MENU_HOTKEY_ID: i32 = 17;

pub const GROUP_DELETE_HOTKEY_ID: i32 = 18;

pub const UNPIN_ALL_HOTKEY_ID: i32 = 19;

pub const PIN_OPEN_GROUP_HOTKEY_ID: i32 = 20;

pub const MITOSIS_HOTKEY_ID: i32 = 21;

pub const WINDOW_CROP_HOTKEY_ID: i32 = 22;

/// A shortcut to ask for: none where none is assigned, or where the text names
/// none.
pub open spec fn wanted(id: i32, text: Option<Seq<char>>) -> Seq<(i32, HotkeyCombo)> {
    match text {
        Some(t) => match parsed(t) {
            Some(combo) => seq![(id, combo)],
            None => seq![],
        },
        None => seq![],
    }
}

fn push_wanted(out: &mut Vec<(i32, HotkeyCombo)>, id: i32, text: &Option<String>)
    ensures
        final(out)@ == old(out)@ + wanted(id, assigned_text(*text)),
{
    if let Some(t) = text {
        if let Ok(combo) = HotkeyCombo::parse(t.as_str()) {
            out.push((id, combo));
        }
    }
    assert(out@ =~= old(out)@ + wanted(id, assigned_text(*text)));
}

/// The shortcuts that open the first `n` groups.
pub open spec fn open_combos(hotkeys: Hotkeys, n: int) -> Seq<(i32, HotkeyCombo)>
    decreases n,
{
    if n <= 0 {
        seq![]
    } else {
        open_combos(hotkeys, n - 1) + wanted(
            (GROUP_OPEN_HOTKEY_ID_BASE + n - 1) as i32,
            hotkeys.open_group_text(n),
        )
    }
}

/// The shortcuts that open groups.
pub fn group_open_combos(hotkeys: &Hotkeys) -> (r: Vec<(i32, HotkeyCombo)>)
    ensures
        r@ == open_combos(*hotkeys, GROUP_OPEN_SLOTS as int),
{
    let mut out: Vec<(i32, HotkeyCombo)> = Vec::new();
    let mut n: usize = 1;
    while n <= GROUP_OPEN_SLOTS
        invariant
            1 <= n <= GROUP_OPEN_SLOTS + 1,
            out@ == open_combos(*hotkeys, n - 1),
        decreases GROUP_OPEN_SLOTS + 1 - n,
    {
        push_wanted(
            &mut out,
            GROUP_OPEN_HOTKEY_ID_BASE + n as i32 - 1,
            hotkeys.open_group(n),
        );
        n = n + 1;
    }
    out
}

/// The shortcuts about groups and pinned windows.
pub open spec fn group_combos(hotkeys: Hotkeys) -> Seq<(i32, HotkeyCombo)> {
    open_combos(hotkeys, GROUP_OPEN_SLOTS as int) + wanted(
        GROUP_MENU_HOTKEY_ID,
        assigned_text(hotkeys.edit_groups_menu),
    ) + wanted(GROUP_DELETE_HOTKEY_ID, assigned_text(hotkeys.delete_open_group)) + wanted(
        UNPIN_ALL_HOTKEY_ID,
        assigned_text(hotkeys.unpin_all),
    )
}

/// The shortcuts about groups and pinned windows.
pub fn group_hotkey_combos(hotkeys: &Hotkeys) -> (r: Vec<(i32, HotkeyCombo)>)
    ensures
        r@ == group_combos(*hotkeys),
{
    let mut out = group_open_combos(hotkeys);
    push_wanted(&mut out, GROUP_MENU_HOTKEY_ID, &hotkeys.edit_groups_menu);
    push_wanted(&mut out, GROUP_DELETE_HOTKEY_ID, &hotkeys.delete_open_group);
    push_wanted(&mut out, UNPIN_ALL_HOTKEY_ID, &hotkeys.unpin_all);
    out
}

/// All shortcuts that are held for as long as the application runs.
pub open spec fn all_combos(hotkeys: Hotkeys) -> Seq<(i32, HotkeyCombo)> {
    wanted(EDIT_HOTKEY_ID, assigned_text(hotkeys.edit_mode)) + wanted(
        TOGGLE_ALL_HOTKEY_ID,
        assigned_text(hotkeys.toggle_all_stickers),
    ) + wanted(MUTE_ALL_HOTKEY_ID, assigned_text(hotkeys.mute_all)) + wanted(
        PIN_FOCUSED_HOTKEY_ID,
        assigned_text(hotkeys.pin_focused_window),
    ) + group_combos(hotkeys)
}

/// All shortcuts that are held for as long as the application runs.
pub fn all_hotkey_combos(hotkeys: &Hotkeys) -> (r: Vec<(i32, HotkeyCombo)>)
    ensures
        r@ == all_combos(*hotkeys),
{
    let mut out: Vec<(i32, HotkeyCombo)> = Vec::new();
    push_wanted(&mut out, EDIT_HOTKEY_ID, &hotkeys.edit_mode);
    push_wanted(&mut out, TOGGLE_ALL_HOTKEY_ID, &hotkeys.toggle_all_stickers);
    push_wanted(&mut out, MUTE_ALL_HOTKEY_ID, &hotkeys.mute_all);
    push_wanted(&mut out, PIN_FOCUSED_HOTKEY_ID, &hotkeys.pin_focused_window);
    let mut groups = group_hotkey_combos(hotkeys);
    out.append(&mut groups);
    assert(out@ =~= all_combos(*hotkeys));
    out
}

/// The group that a shortcut's number opens.
pub open spec fn group_number(id: i32) -> Option<u8> {
    if GROUP_OPEN_HOTKEY_ID_BASE <= id < GROUP_OPEN_HOTKEY_ID_BASE + GROUP_OPEN_SLOTS {
        Some((id - GROUP_OPEN_HOTKEY_ID_BASE + 1) as u8)
    } else {
        None
    }
}

/// The group that a shortcut's number opens.
pub fn group_number_of(id: i32) -> (r: Option<u8>)
    ensures
        r == group_number(id),
{
    if id >= GROUP_OPEN_HOTKEY_ID_BASE && id < GROUP_OPEN_HOTKEY_ID_BASE + GROUP_OPEN_SLOTS as i32 {
        Some((id - GROUP_OPEN_HOTKEY_ID_BASE + 1) as u8)
    } else {
        None
    }
}

/// The numbers go up along the list, from `low` up to but not onto `high`.
spec fn ascending(combos: Seq<(i32, HotkeyCombo)>, low: int, high: int) -> bool {
    &&& forall|i: int| 0 <= i < combos.len() ==> low <= (#[trigger] combos[i]).0 < high
    &&& forall|i: int, j: int|
        0 <= i < j < combos.len() ==> (#[trigger] combos[i]).0 < (#[trigger] combos[j]).0
}

proof fn ascending_joined(
    a: Seq<(i32, HotkeyCombo)>,
    b: Seq<(i32, HotkeyCombo)>,
    low: int,
    mid: int,
    high: int,
)
    requires
        ascending(a, low, mid),
        ascending(b, mid, high),
        low <= mid <= high,
    ensures
        ascending(a + b, low, high),
{
    let all = a + b;
    assert forall|i: int| 0 <= i < all.len() implies low <= (#[trigger] all[i]).0 < high by {
        if i < a.len() {
            assert(all[i] == a[i]);
        } else {
            assert(all[i] == b[i - a.len()]);
        }
    }
    assert forall|i: int, j: int| 0 <= i < j < all.len() implies (#[trigger] all[i]).0 < (
    #[trigger] all[j]).0 by {
        if j < a.len() {
            assert(all[i] == a[i] && all[j] == a[j]);
        } else if i < a.len() {
            assert(all[i] == a[i] && all[j] == b[j - a.len()]);
        } else {
            assert(all[i] == b[i - a.len()] && all[j] == b[j - a.len()]);
        }
    }
}

proof fn open_combos_ascend(hotkeys: Hotkeys, n: int)
    requires
        0 <= n <= GROUP_OPEN_SLOTS,
    ensures
        ascending(
            open_combos(hotkeys, n),
            GROUP_OPEN_HOTKEY_ID_BASE as int,
            GROUP_OPEN_HOTKEY_ID_BASE + n,
        ),
    decreases n,
{
    if n > 0 {
        open_combos_ascend(hotkeys, n - 1);
        let id = GROUP_OPEN_HOTKEY_ID_BASE + n - 1;
        ascending_joined(
            open_combos(hotkeys, n - 1),
            wanted(id as i32, hotkeys.open_group_text(n)),
            GROUP_OPEN_HOTKEY_ID_BASE as int,
            id,
            id + 1,
        );
    }
}

/// No two shortcuts share a number, whatever the settings assign: along the
/// list the numbers go up. None of them is one of those lent to videos.
pub proof fn numbers_are_distinct(hotkeys: Hotkeys)
    ensures
        forall|i: int, j: int|
            0 <= i < j < all_combos(hotkeys).len() ==> (#[trigger] all_combos(hotkeys)[i]).0 < (
            #[trigger] all_combos(hotkeys)[j]).0,
        forall|i: int|
            0 <= i < all_combos(hotkeys).len() ==> {
                let id = (#[trigger] all_combos(hotkeys)[i]).0;
                1 <= id < 20 && !(MEDIA_PLAY_PAUSE_HOTKEY_ID <= id <= MEDIA_VOLUME_DOWN_HOTKEY_ID)
            },
{
    let edit = wanted(EDIT_HOTKEY_ID, assigned_text(hotkeys.edit_mode));
    let toggle = wanted(TOGGLE_ALL_HOTKEY_ID, assigned_text(hotkeys.toggle_all_stickers));
    let mute = wanted(MUTE_ALL_HOTKEY_ID, assigned_text(hotkeys.mute_all));
    let pin = wanted(PIN_FOCUSED_HOTKEY_ID, assigned_text(hotkeys.pin_focused_window));
    let open = open_combos(hotkeys, GROUP_OPEN_SLOTS as int);
    let menu = wanted(GROUP_MENU_HOTKEY_ID, assigned_text(hotkeys.edit_groups_menu));
    let delete = wanted(GROUP_DELETE_HOTKEY_ID, assigned_text(hotkeys.delete_open_group));
    let unpin = wanted(UNPIN_ALL_HOTKEY_ID, assigned_text(hotkeys.unpin_all));
    open_combos_ascend(hotkeys, GROUP_OPEN_SLOTS as int);
    ascending_joined(edit, toggle, 1, 2, 3);
    ascending_joined(edit + toggle, mute, 1, 3, 4);
    ascending_joined(edit + toggle + mute, pin, 1, 4, 5);
    ascending_joined(open, menu, 8, 17, 18);
    ascending_joined(open + menu, delete, 8, 18, 19);
    ascending_joined(open + menu + delete, unpin, 8, 19, 20);
    let fixed = edit + toggle + mute + pin;
    let groups = open + menu + delete + unpin;
    assert(groups == group_combos(hotkeys));
    assert(ascending(fixed, 1, 8));
    ascending_joined(fixed, groups, 1, 8, 20);
    assert(all_combos(hotkeys) == fixed + groups);
    assert forall|i: int| 0 <= i < all_combos(hotkeys).len() implies {
        let id = (#[trigger] all_combos(hotkeys)[i]).0;
        1 <= id < 20 && !(MEDIA_PLAY_PAUSE_HOTKEY_ID <= id <= MEDIA_VOLUME_DOWN_HOTKEY_ID)
    } by {
        if i < fixed.len() {
            assert(all_combos(hotkeys)[i] == fixed[i]);
        } else {
            assert(all_combos(hotkeys)[i] == groups[i - fixed.len()]);
        }
    }
}

/// The number that a group's shortcut is asked for under is the one that opens
/// that group, and no other number opens a group.
pub proof fn group_numbers_match(n: u8, id: i32)
    ensures
        1 <= n <= GROUP_OPEN_SLOTS ==> group_number((GROUP_OPEN_HOTKEY_ID_BASE + n - 1) as i32)
            == Some(n),
        group_number(id) == Some(n) ==> 1 <= n <= GROUP_OPEN_SLOTS && id
            == GROUP_OPEN_HOTKEY_ID_BASE + n - 1,
{
}

proof fn joined_has(a: Seq<(i32, HotkeyCombo)>, b: Seq<(i32, HotkeyCombo)>, x: (i32, HotkeyCombo))
    ensures
        (a + b).contains(x) <==> a.contains(x) || b.contains(x),
{
    let all = a + b;
    if a.contains(x) {
        let i = choose|i: int| 0 <= i < a.len() && a[i] == x;
        assert(all[i] == x);
    }
    if b.contains(x) {
        let i = choose|i: int| 0 <= i < b.len() && b[i] == x;
        assert(all[a.len() + i] == x);
    }
    if all.contains(x) {
        let i = choose|i: int| 0 <= i < all.len() && all[i] == x;
        if i < a.len() {
            assert(a[i] == x);
        } else {
            assert(b[i - a.len()] == x);
        }
    }
}

proof fn wanted_has(id: i32, text: Option<String>, x: (i32, HotkeyCombo))
    ensures
        wanted(id, assigned_text(text)).contains(x) <==> x.0 == id && (text matches Some(t)
            && parsed(t@) == Some(x.1)),
{
    let list = wanted(id, assigned_text(text));
    if let Some(t) = text {
        if parsed(t@) == Some(x.1) && x.0 == id {
            assert(list[0] == x);
        }
    }
}

proof fn open_has(hotkeys: Hotkeys, n: int, x: (i32, HotkeyCombo))
    requires
        0 <= n <= 9,
    ensures
        open_combos(hotkeys, n).contains(x) <==> 8 <= x.0 < 8 + n && x.0 - 8
            < hotkeys.open_group_by_number@.len() && (hotkeys.open_group_by_number@[x.0
            - 8] matches Some(t) && parsed(t@) == Some(x.1)),
    decreases n,
{
    if n > 0 {
        open_has(hotkeys, n - 1, x);
        let id = (7 + n) as i32;
        let text = if n <= hotkeys.open_group_by_number@.len() {
            hotkeys.open_group_by_number@[n - 1]
        } else {
            None
        };
        wanted_has(id, text, x);
        joined_has(open_combos(hotkeys, n - 1), wanted(id, hotkeys.open_group_text(n)), x);
    }
}

/// Each shortcut comes from one setting: a combination is asked for under a
/// number exactly where the setting of that number is assigned a text that names
/// it. One is the edit mode, two all stickers, three muting, four the focused
/// window, eight to sixteen the first to the ninth group, seventeen the menu of
/// the groups, eighteen deleting the open group, nineteen unpinning all. There is
/// no other number.
pub proof fn each_number_is_one_setting(hotkeys: Hotkeys, c: HotkeyCombo, id: i32)
    ensures
        ({
            let list = all_combos(hotkeys);
            &&& list.contains((1i32, c)) <==> (hotkeys.edit_mode matches Some(t) && parsed(t@)
                == Some(c))
            &&& list.contains((2i32, c)) <==> (hotkeys.toggle_all_stickers matches Some(t)
                && parsed(t@) == Some(c))
            &&& list.contains((3i32, c)) <==> (hotkeys.mute_all matches Some(t) && parsed(t@)
                == Some(c))
            &&& list.contains((4i32, c)) <==> (hotkeys.pin_focused_window matches Some(t)
                && parsed(t@) == Some(c))
            &&& 8 <= id <= 16 ==> (list.contains((id, c)) <==> id - 8
                < hotkeys.open_group_by_number@.len() && (hotkeys.open_group_by_number@[id
                - 8] matches Some(t) && parsed(t@) == Some(c)))
            &&& list.contains((17i32, c)) <==> (hotkeys.edit_groups_menu matches Some(t) && parsed(
                t@,
            ) == Some(c))
            &&& list.contains((18i32, c)) <==> (hotkeys.delete_open_group matches Some(t) && parsed(
                t@,
            ) == Some(c))
            &&& list.contains((19i32, c)) <==> (hotkeys.unpin_all matches Some(t) && parsed(t@)
                == Some(c))
            &&& id < 1 || 5 <= id <= 7 || id > 19 ==> !list.contains((id, c))
        }),
{
    each_group_number_is_one_setting(hotkeys, c, 1);
    each_group_number_is_one_setting(hotkeys, c, 2);
    each_group_number_is_one_setting(hotkeys, c, 3);
    each_group_number_is_one_setting(hotkeys, c, 4);
    each_group_number_is_one_setting(hotkeys, c, id);
    fixed_has(hotkeys, (1, c));
    fixed_has(hotkeys, (2, c));
    fixed_has(hotkeys, (3, c));
    fixed_has(hotkeys, (4, c));
    fixed_has(hotkeys, (17, c));
    fixed_has(hotkeys, (18, c));
    fixed_has(hotkeys, (19, c));
    fixed_has(hotkeys, (id, c));
}

proof fn fixed_has(hotkeys: Hotkeys, x: (i32, HotkeyCombo))
    ensures
        all_combos(hotkeys).contains(x) <==> group_combos(hotkeys).contains(x) || (x.0 == 1 && (
        hotkeys.edit_mode matches Some(t) && parsed(t@) == Some(x.1))) || (x.0 == 2 && (
        hotkeys.toggle_all_stickers matches Some(t) && parsed(t@) == Some(x.1))) || (x.0 == 3 && (
        hotkeys.mute_all matches Some(t) && parsed(t@) == Some(x.1))) || (x.0 == 4 && (
        hotkeys.pin_focused_window matches Some(t) && parsed(t@) == Some(x.1))),
{
    let edit = wanted(1, assigned_text(hotkeys.edit_mode));
    let toggle = wanted(2, assigned_text(hotkeys.toggle_all_stickers));
    let mute = wanted(3, assigned_text(hotkeys.mute_all));
    let pin = wanted(4, assigned_text(hotkeys.pin_focused_window));
    wanted_has(1, hotkeys.edit_mode, x);
    wanted_has(2, hotkeys.toggle_all_stickers, x);
    wanted_has(3, hotkeys.mute_all, x);
    wanted_has(4, hotkeys.pin_focused_window, x);
    joined_has(edit, toggle, x);
    joined_has(edit + toggle, mute, x);
    joined_has(edit + toggle + mute, pin, x);
    joined_has(edit + toggle + mute + pin, group_combos(hotkeys), x);
}

/// The shortcuts about groups and pinned windows, each from one setting: eight to
/// sixteen open the first to the ninth group, seventeen is the menu of the groups,
/// eighteen deletes the open group, nineteen unpins all. There is no other number
/// among them.
pub proof fn each_group_number_is_one_setting(hotkeys: Hotkeys, c: HotkeyCombo, id: i32)
    ensures
        ({
            let list = group_combos(hotkeys);
            &&& 8 <= id <= 16 ==> (list.contains((id, c)) <==> id - 8
                < hotkeys.open_group_by_number@.len() && (hotkeys.open_group_by_number@[id
                - 8] matches Some(t) && parsed(t@) == Some(c)))
            &&& list.contains((17i32, c)) <==> (hotkeys.edit_groups_menu matches Some(t) && parsed(
                t@,
            ) == Some(c))
            &&& list.contains((18i32, c)) <==> (hotkeys.delete_open_group matches Some(t) && parsed(
                t@,
            ) == Some(c))
            &&& list.contains((19i32, c)) <==> (hotkeys.unpin_all matches Some(t) && parsed(t@)
                == Some(c))
            &&& id < 8 || id > 19 ==> !list.contains((id, c))
        }),
{
    group_has(hotkeys, (17, c));
    group_has(hotkeys, (18, c));
    group_has(hotkeys, (19, c));
    group_has(hotkeys, (id, c));
}

proof fn group_has(hotkeys: Hotkeys, x: (i32, HotkeyCombo))
    ensures
        group_combos(hotkeys).contains(x) <==> (8 <= x.0 < 17 && x.0 - 8
            < hotkeys.open_group_by_number@.len() && (hotkeys.open_group_by_number@[x.0
            - 8] matches Some(t) && parsed(t@) == Some(x.1))) || (x.0 == 17 && (
        hotkeys.edit_groups_menu matches Some(t) && parsed(t@) == Some(x.1))) || (x.0 == 18 && (
        hotkeys.delete_open_group matches Some(t) && parsed(t@) == Some(x.1))) || (x.0 == 19 && (
        hotkeys.unpin_all matches Some(t) && parsed(t@) == Some(x.1))),
{
    let open = open_combos(hotkeys, 9);
    let menu = wanted(17, assigned_text(hotkeys.edit_groups_menu));
    let delete = wanted(18, assigned_text(hotkeys.delete_open_group));
    let unpin = wanted(19, assigned_text(hotkeys.unpin_all));
    open_has(hotkeys, 9, x);
    wanted_has(17, hotkeys.edit_groups_menu, x);
    wanted_has(18, hotkeys.delete_open_group, x);
    wanted_has(19, hotkeys.unpin_all, x);
    joined_has(open, menu, x);
    joined_has(open + menu, delete, x);
    joined_has(open + menu + delete, unpin, x);
}

/// The numbers eight to sixteen open the groups one to nine, in order, and no
/// other number opens a group.
pub proof fn group_is_its_number_less_seven(id: i32)
    ensures
        8 <= id <= 16 ==> (group_number(id) matches Some(n) && n == id - 7),
        id < 8 || id > 16 ==> group_number(id) is None,
{
}

} // verus!
