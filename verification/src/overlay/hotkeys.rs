//! The shortcuts of an overlay window: which of them it has, which the keyboard
//! hook sees for it, and what a press means.

use vstd::prelude::*;

use std::collections::HashSet;

use crate::error::Win32Error;
use crate::hotkey::groups::{
    group_number, group_number_of, EDIT_HOTKEY_ID, GROUP_DELETE_HOTKEY_ID, GROUP_MENU_HOTKEY_ID,
    MEDIA_PLAY_PAUSE_HOTKEY_ID, MEDIA_VOLUME_DOWN_HOTKEY_ID, MEDIA_VOLUME_UP_HOTKEY_ID,
    MITOSIS_HOTKEY_ID, MUTE_ALL_HOTKEY_ID, PIN_FOCUSED_HOTKEY_ID, PIN_OPEN_GROUP_HOTKEY_ID,
    TOGGLE_ALL_HOTKEY_ID, UNPIN_ALL_HOTKEY_ID, WINDOW_CROP_HOTKEY_ID,
};
use crate::hotkey::registration::{granted, outcome, SystemReply};
use crate::hotkey::{
    HotkeyCombo, HotkeyRegistrationConflict, RegisteredHotkey, RegisteredHotkeySet,
};
use crate::overlay::{HotkeyName, OverlayEvent};
use crate::winapi::{VK_NEXT, VK_PRIOR, VK_SPACE};

verus! {

broadcast use vstd::std_specs::hash::group_hash_axioms;

/// The name under which a shortcut is reported where another application has
/// it. The keys lent to videos and the group numbers have none.
pub open spec fn name_of(id: i32) -> Option<HotkeyName> {
    if id == EDIT_HOTKEY_ID {
        Some(HotkeyName::EditMode)
    } else if id == TOGGLE_ALL_HOTKEY_ID {
        Some(HotkeyName::ToggleAllStickers)
    } else if id == MUTE_ALL_HOTKEY_ID {
        Some(HotkeyName::MuteAll)
    } else if id == PIN_FOCUSED_HOTKEY_ID {
        Some(HotkeyName::PinFocusedWindow)
    } else if id == MITOSIS_HOTKEY_ID {
        Some(HotkeyName::WindowMitosis)
    } else if id == WINDOW_CROP_HOTKEY_ID {
        Some(HotkeyName::WindowCrop)
    } else {
        None
    }
}

/// The name under which a shortcut is reported where another application has
/// it.
pub fn hotkey_name_of(id: i32) -> (r: Option<HotkeyName>)
    ensures
        r == name_of(id),
{
    if id == EDIT_HOTKEY_ID {
        Some(HotkeyName::EditMode)
    } else if id == TOGGLE_ALL_HOTKEY_ID {
        Some(HotkeyName::ToggleAllStickers)
    } else if id == MUTE_ALL_HOTKEY_ID {
        Some(HotkeyName::MuteAll)
    } else if id == PIN_FOCUSED_HOTKEY_ID {
        Some(HotkeyName::PinFocusedWindow)
    } else if id == MITOSIS_HOTKEY_ID {
        Some(HotkeyName::WindowMitosis)
    } else if id == WINDOW_CROP_HOTKEY_ID {
        Some(HotkeyName::WindowCrop)
    } else {
        None
    }
}

/// The keys lent to videos.
pub open spec fn is_media(id: i32) -> bool {
    MEDIA_PLAY_PAUSE_HOTKEY_ID <= id <= MEDIA_VOLUME_DOWN_HOTKEY_ID
}

/// What a press of a shortcut means.
pub open spec fn meaning(id: i32) -> Option<OverlayEvent> {
    if id == EDIT_HOTKEY_ID {
        Some(OverlayEvent::ToggleEditMode)
    } else if id == TOGGLE_ALL_HOTKEY_ID {
        Some(OverlayEvent::ToggleAllStickers)
    } else if id == MUTE_ALL_HOTKEY_ID {
        Some(OverlayEvent::ToggleMuteAll)
    } else if id == PIN_FOCUSED_HOTKEY_ID {
        Some(OverlayEvent::PinFocusedWindow)
    } else if id == MEDIA_PLAY_PAUSE_HOTKEY_ID {
        Some(OverlayEvent::MediaPlayPause)
    } else if id == MEDIA_VOLUME_UP_HOTKEY_ID {
        Some(OverlayEvent::MediaVolumeUp)
    } else if id == MEDIA_VOLUME_DOWN_HOTKEY_ID {
        Some(OverlayEvent::MediaVolumeDown)
    } else if id == GROUP_MENU_HOTKEY_ID {
        Some(OverlayEvent::ToggleGroupsMenu)
    } else if id == GROUP_DELETE_HOTKEY_ID {
        Some(OverlayEvent::DeleteOpenGroup)
    } else if id == UNPIN_ALL_HOTKEY_ID {
        Some(OverlayEvent::UnpinAll)
    } else if id == MITOSIS_HOTKEY_ID {
        Some(OverlayEvent::ToggleMitosisMode)
    } else if id == WINDOW_CROP_HOTKEY_ID {
        Some(OverlayEvent::ToggleWindowCropMode)
    } else if id == PIN_OPEN_GROUP_HOTKEY_ID {
        Some(OverlayEvent::PinTogglePressed)
    } else {
        match group_number(id) {
            Some(n) => Some(OverlayEvent::OpenGroup(n)),
            None => None,
        }
    }
}

/// What a press of a shortcut means.
pub fn hotkey_event(id: i32) -> (r: Option<OverlayEvent>)
    ensures
        r == meaning(id),
{
    if id == EDIT_HOTKEY_ID {
        Some(OverlayEvent::ToggleEditMode)
    } else if id == TOGGLE_ALL_HOTKEY_ID {
        Some(OverlayEvent::ToggleAllStickers)
    } else if id == MUTE_ALL_HOTKEY_ID {
        Some(OverlayEvent::ToggleMuteAll)
    } else if id == PIN_FOCUSED_HOTKEY_ID {
        Some(OverlayEvent::PinFocusedWindow)
    } else if id == MEDIA_PLAY_PAUSE_HOTKEY_ID {
        Some(OverlayEvent::MediaPlayPause)
    } else if id == MEDIA_VOLUME_UP_HOTKEY_ID {
        Some(OverlayEvent::MediaVolumeUp)
    } else if id == MEDIA_VOLUME_DOWN_HOTKEY_ID {
        Some(OverlayEvent::MediaVolumeDown)
    } else if id == GROUP_MENU_HOTKEY_ID {
        Some(OverlayEvent::ToggleGroupsMenu)
    } else if id == GROUP_DELETE_HOTKEY_ID {
        Some(OverlayEvent::DeleteOpenGroup)
    } else if id == UNPIN_ALL_HOTKEY_ID {
        Some(OverlayEvent::UnpinAll)
    } else if id == MITOSIS_HOTKEY_ID {
        Some(OverlayEvent::ToggleMitosisMode)
    } else if id == WINDOW_CROP_HOTKEY_ID {
        Some(OverlayEvent::ToggleWindowCropMode)
    } else if id == PIN_OPEN_GROUP_HOTKEY_ID {
        Some(OverlayEvent::PinTogglePressed)
    } else {
        match group_number_of(id) {
            Some(n) => Some(OverlayEvent::OpenGroup(n)),
            None => None,
        }
    }
}

/// What came of installing a set of shortcuts.
#[derive(Debug, Clone, PartialEq, Eq)]
pub struct HotkeysInstallReport {
    pub registered: usize,
    /// Those that other applications have.
    pub conflicts: Vec<HotkeyRegistrationConflict>,
}

/// The numbers of those that were taken.
pub open spec fn conflict_ids(conflicts: Seq<HotkeyRegistrationConflict>) -> Seq<i32> {
    conflicts.map_values(|c: HotkeyRegistrationConflict| c.id)
}

/// The first shortcut with a number.
pub open spec fn first_with(combos: Seq<(i32, HotkeyCombo)>, id: i32) -> Option<(i32, HotkeyCombo)>
    decreases combos.len(),
{
    if combos.len() == 0 {
        None
    } else if combos[0].0 == id {
        Some(combos[0])
    } else {
        first_with(combos.drop_first(), id)
    }
}

/// The shortcuts with these numbers, in the order of the numbers.
pub open spec fn looked_up(combos: Seq<(i32, HotkeyCombo)>, ids: Seq<i32>) -> Seq<
    (i32, HotkeyCombo),
>
    decreases ids.len(),
{
    if ids.len() == 0 {
        seq![]
    } else {
        let before = looked_up(combos, ids.drop_last());
        match first_with(combos, ids.last()) {
            Some(c) => before.push(c),
            None => before,
        }
    }
}

fn find_first(combos: &[(i32, HotkeyCombo)], id: i32) -> (r: Option<(i32, HotkeyCombo)>)
    ensures
        r == first_with(combos@, id),
{
    let mut i: usize = 0;
    assert(combos@.skip(0) =~= combos@);
    while i < combos.len()
        invariant
            i <= combos.len(),
            first_with(combos@, id) == first_with(combos@.skip(i as int), id),
        decreases combos.len() - i,
    {
        proof {
            assert(combos@.skip(i as int)[0] == combos@[i as int]);
            assert(combos@.skip(i as int).drop_first() =~= combos@.skip(i + 1));
        }
        if combos[i].0 == id {
            return Some(combos[i]);
        }
        i = i + 1;
    }
    None
}

/// The shortcuts that could not be had, as they were asked for: the keyboard
/// hook is to see them.
pub fn conflicting_combos(combos: &[(i32, HotkeyCombo)], report: &HotkeysInstallReport) -> (r:
    Vec<(i32, HotkeyCombo)>)
    ensures
        r@ == looked_up(combos@, conflict_ids(report.conflicts@)),
{
    let mut out: Vec<(i32, HotkeyCombo)> = Vec::new();
    let ghost ids = conflict_ids(report.conflicts@);
    let mut i: usize = 0;
    assert(ids.take(0) =~= Seq::<i32>::empty());
    while i < report.conflicts.len()
        invariant
            i <= report.conflicts.len(),
            ids == conflict_ids(report.conflicts@),
            out@ == looked_up(combos@, ids.take(i as int)),
        decreases report.conflicts.len() - i,
    {
        let id: i32 = report.conflicts[i].id;
        proof {
            assert(ids.take(i + 1).drop_last() =~= ids.take(i as int));
            assert(ids.take(i + 1).last() == id);
        }
        if let Some(c) = find_first(combos, id) {
            out.push(c);
        }
        i = i + 1;
    }
    assert(ids.take(ids.len() as int) =~= ids);
    out
}

/// A shortcut to ask for, where there is one.
pub open spec fn optional(id: i32, combo: Option<HotkeyCombo>) -> Seq<(i32, HotkeyCombo)> {
    match combo {
        Some(c) => seq![(id, c)],
        None => seq![],
    }
}

fn push_optional(out: &mut Vec<(i32, HotkeyCombo)>, id: i32, combo: Option<HotkeyCombo>)
    ensures
        final(out)@ == old(out)@ + optional(id, combo),
{
    if let Some(c) = combo {
        out.push((id, c));
    }
    assert(out@ =~= old(out)@ + optional(id, combo));
}

/// The shortcuts that a window asks for when it is set up.
pub open spec fn spec_initial_combos(
    edit: Option<HotkeyCombo>,
    toggle_all: Option<HotkeyCombo>,
    mute_all: Option<HotkeyCombo>,
    pin_focused: Option<HotkeyCombo>,
    groups: Seq<(i32, HotkeyCombo)>,
) -> Seq<(i32, HotkeyCombo)> {
    optional(EDIT_HOTKEY_ID, edit) + optional(TOGGLE_ALL_HOTKEY_ID, toggle_all) + optional(
        MUTE_ALL_HOTKEY_ID,
        mute_all,
    ) + optional(PIN_FOCUSED_HOTKEY_ID, pin_focused) + groups
}

/// The shortcuts that a window asks for when it is set up. Only one window asks
/// for any.
pub fn initial_combos(
    edit: Option<HotkeyCombo>,
    toggle_all: Option<HotkeyCombo>,
    mute_all: Option<HotkeyCombo>,
    pin_focused: Option<HotkeyCombo>,
    groups: Vec<(i32, HotkeyCombo)>,
) -> (r: Vec<(i32, HotkeyCombo)>)
    ensures
        r@ == spec_initial_combos(edit, toggle_all, mute_all, pin_focused, groups@),
        r@ == optional(EDIT_HOTKEY_ID, edit) + optional(TOGGLE_ALL_HOTKEY_ID, toggle_all)
            + optional(MUTE_ALL_HOTKEY_ID, mute_all) + optional(PIN_FOCUSED_HOTKEY_ID, pin_focused)
            + groups@,
{
    let mut groups = groups;
    let mut out: Vec<(i32, HotkeyCombo)> = Vec::new();
    push_optional(&mut out, EDIT_HOTKEY_ID, edit);
    push_optional(&mut out, TOGGLE_ALL_HOTKEY_ID, toggle_all);
    push_optional(&mut out, MUTE_ALL_HOTKEY_ID, mute_all);
    push_optional(&mut out, PIN_FOCUSED_HOTKEY_ID, pin_focused);
    out.append(&mut groups);
    out
}

/// A key without modifiers.
pub open spec fn bare(vk: u32) -> HotkeyCombo {
    HotkeyCombo { ctrl: false, alt: false, shift: false, win: false, vk }
}

/// The keys that control a video: the space bar pauses, the page keys change
/// the volume.
pub open spec fn media_keys() -> Seq<(i32, HotkeyCombo)> {
    seq![
        (MEDIA_PLAY_PAUSE_HOTKEY_ID, bare(VK_SPACE)),
        (MEDIA_VOLUME_UP_HOTKEY_ID, bare(VK_PRIOR)),
        (MEDIA_VOLUME_DOWN_HOTKEY_ID, bare(VK_NEXT)),
    ]
}

fn bare_key(vk: u32) -> (r: HotkeyCombo)
    ensures
        r == bare(vk),
{
    HotkeyCombo { ctrl: false, alt: false, shift: false, win: false, vk }
}

/// The keys that control a video.
pub fn media_combos() -> (r: Vec<(i32, HotkeyCombo)>)
    ensures
        r@ == media_keys(),
{
    let mut out: Vec<(i32, HotkeyCombo)> = Vec::new();
    out.push((MEDIA_PLAY_PAUSE_HOTKEY_ID, bare_key(VK_SPACE)));
    out.push((MEDIA_VOLUME_UP_HOTKEY_ID, bare_key(VK_PRIOR)));
    out.push((MEDIA_VOLUME_DOWN_HOTKEY_ID, bare_key(VK_NEXT)));
    out
}

/// Of shortcuts asked for one by one, those that were refused, for whatever
/// reason.
pub open spec fn refused_of(combos: Seq<(i32, HotkeyCombo)>, replies: Seq<SystemReply>) -> Seq<
    (i32, HotkeyCombo),
>
    decreases combos.len(),
{
    if combos.len() == 0 {
        seq![]
    } else {
        let before = refused_of(combos.drop_last(), replies);
        if outcome(combos.last().0, replies[combos.len() - 1]) is Granted {
            before
        } else {
            before.push(combos.last())
        }
    }
}

/// The numbers of shortcuts.
pub open spec fn numbers(combos: Seq<(i32, HotkeyCombo)>) -> Seq<i32> {
    combos.map_values(|c: (i32, HotkeyCombo)| c.0)
}

/// The numbers that granted shortcuts are reported under.
pub open spec fn numbers_of(hotkeys: Seq<RegisteredHotkey>) -> Seq<i32> {
    hotkeys.map_values(|h: RegisteredHotkey| h.number)
}

/// The shortcuts of one window.
#[derive(Debug)]
pub struct HotkeyDesk {
    /// Those that the system has granted.
    pub hotkeys: Vec<RegisteredHotkey>,
    /// The keys lent to videos that the system has granted.
    pub media_hotkeys: Vec<RegisteredHotkey>,
    /// The numbers of those that the system has granted.
    pub owned: HashSet<i32>,
    /// The numbers of those that the keyboard hook sees.
    pub hooked: HashSet<i32>,
    /// Those that other applications have.
    pub fallback_permanent: Vec<(i32, HotkeyCombo)>,
    /// The keys lent to videos that other applications have.
    pub fallback_media: Vec<(i32, HotkeyCombo)>,
}

impl HotkeyDesk {
    /// The window answers to what it has been granted and to what the hook sees
    /// for it, and the hook sees what could not be had.
    pub open spec fn well_formed(self) -> bool {
        &&& self.owned@ == numbers_of(self.hotkeys@).to_set()
        &&& self.hooked@ == numbers(self.fallbacks()).to_set()
    }

    /// All that could not be had.
    pub open spec fn fallbacks(self) -> Seq<(i32, HotkeyCombo)> {
        self.fallback_permanent@ + self.fallback_media@
    }

    /// A window without shortcuts.
    pub fn new() -> (r: Self)
        ensures
            r.well_formed(),
            r.hotkeys@.len() == 0,
            r.media_hotkeys@.len() == 0,
            r.fallbacks().len() == 0,
    {
        let r = HotkeyDesk {
            hotkeys: Vec::new(),
            media_hotkeys: Vec::new(),
            owned: HashSet::new(),
            hooked: HashSet::new(),
            fallback_permanent: Vec::new(),
            fallback_media: Vec::new(),
        };
        assert(r.owned@ =~= numbers_of(r.hotkeys@).to_set());
        assert(r.hooked@ =~= numbers(r.fallbacks()).to_set());
        r
    }

    /// What the keyboard hook is to see.
    pub fn hook_combos(&self) -> (r: Vec<(i32, HotkeyCombo)>)
        ensures
            r@ == self.fallbacks(),
    {
        let mut out: Vec<(i32, HotkeyCombo)> = Vec::new();
        let mut i: usize = 0;
        while i < self.fallback_permanent.len()
            invariant
                i <= self.fallback_permanent.len(),
                out@ == self.fallback_permanent@.take(i as int),
            decreases self.fallback_permanent.len() - i,
        {
            out.push(self.fallback_permanent[i]);
            assert(out@ =~= self.fallback_permanent@.take(i + 1));
            i = i + 1;
        }
        let mut k: usize = 0;
        while k < self.fallback_media.len()
            invariant
                k <= self.fallback_media.len(),
                out@ == self.fallback_permanent@ + self.fallback_media@.take(k as int),
            decreases self.fallback_media.len() - k,
        {
            out.push(self.fallback_media[k]);
            assert(out@ =~= self.fallback_permanent@ + self.fallback_media@.take(k + 1));
            k = k + 1;
        }
        assert(out@ =~= self.fallbacks());
        out
    }

    /// Bring the numbers that the hook sees up to what could not be had.
    fn refresh_hotkey_hook(&mut self)
        requires
            old(self).owned@ == numbers_of(old(self).hotkeys@).to_set(),
        ensures
            final(self).well_formed(),
            final(self).hotkeys == old(self).hotkeys,
            final(self).media_hotkeys == old(self).media_hotkeys,
            final(self).owned == old(self).owned,
            final(self).fallback_permanent == old(self).fallback_permanent,
            final(self).fallback_media == old(self).fallback_media,
    {
        let combos = self.hook_combos();
        let mut hooked: HashSet<i32> = HashSet::new();
        let mut i: usize = 0;
        assert(numbers(combos@.take(0)).to_set() =~= Set::<i32>::empty());
        while i < combos.len()
            invariant
                i <= combos.len(),
                hooked@ == numbers(combos@.take(i as int)).to_set(),
            decreases combos.len() - i,
        {
            hooked.insert(combos[i].0);
            proof {
                let before = numbers(combos@.take(i as int));
                let after = numbers(combos@.take(i + 1));
                assert(after =~= before.push(combos@[i as int].0));
                assert(after.to_set() =~= before.to_set().insert(combos@[i as int].0)) by {
                    assert forall|id: i32|
                        after.to_set().contains(id) == before.to_set().insert(
                            combos@[i as int].0,
                        ).contains(id) by {
                        if before.contains(id) {
                            let k = choose|k: int| 0 <= k < before.len() && before[k] == id;
                            assert(after[k] == id);
                        }
                        assert(after[i as int] == combos@[i as int].0);
                    }
                }
            }
            i = i + 1;
        }
        assert(combos@.take(combos@.len() as int) =~= combos@);
        self.hooked = hooked;
    }

    /// Take up what came of asking for a whole set. What was there before has
    /// been given back; what other applications have is left to the hook.
    pub fn install_hotkeys(
        &mut self,
        combos: &[(i32, HotkeyCombo)],
        result: Result<RegisteredHotkeySet, Win32Error>,
    ) -> (r: HotkeysInstallReport)
        requires
            old(self).well_formed(),
        ensures
            final(self).well_formed(),
            final(self).media_hotkeys == old(self).media_hotkeys,
            final(self).fallback_media == old(self).fallback_media,
            match result {
                Ok(set) => {
                    &&& final(self).hotkeys@ == set.hotkeys@
                    &&& r.registered == set.hotkeys@.len()
                    &&& r.conflicts@ == set.taken@
                },
                Err(_) => {
                    &&& final(self).hotkeys@.len() == 0
                    &&& r.registered == 0
                    &&& r.conflicts@.len() == 0
                },
            },
            final(self).fallback_permanent@ == looked_up(combos@, conflict_ids(r.conflicts@)),
    {
        let report = match result {
            Ok(set) => {
                let mut set = set;
                let owned = set.registered_ids();
                let ghost ids = set.ids();
                self.owned = owned;
                self.hotkeys = set.take_hotkeys();
                assert(ids =~= numbers_of(self.hotkeys@));
                HotkeysInstallReport { registered: self.hotkeys.len(), conflicts: set.taken }
            },
            Err(_) => {
                self.hotkeys = Vec::new();
                self.owned = HashSet::new();
                assert(self.owned@ =~= numbers_of(self.hotkeys@).to_set());
                HotkeysInstallReport { registered: 0, conflicts: Vec::new() }
            },
        };
        self.fallback_permanent = conflicting_combos(combos, &report);
        self.refresh_hotkey_hook();
        report
    }

    /// Take up what came of asking for the keys that control a video, one reply
    /// for each; or that they were given back. A key that could not be had is
    /// left to the hook.
    pub fn set_media_hotkeys(&mut self, enabled: bool, replies: &Vec<SystemReply>)
        requires
            old(self).well_formed(),
            enabled ==> replies@.len() == media_keys().len(),
        ensures
            final(self).well_formed(),
            final(self).hotkeys == old(self).hotkeys,
            final(self).fallback_permanent == old(self).fallback_permanent,
            numbers_of(final(self).media_hotkeys@) == (if enabled {
                granted(media_keys(), replies@)
            } else {
                seq![]
            }),
            final(self).fallback_media@ == (if enabled {
                refused_of(media_keys(), replies@)
            } else {
                seq![]
            }),
    {
        let mut had: Vec<RegisteredHotkey> = Vec::new();
        let mut refused: Vec<(i32, HotkeyCombo)> = Vec::new();
        assert(numbers_of(had@) =~= Seq::<i32>::empty());
        if enabled {
            let combos = media_combos();
            let mut i: usize = 0;
            assert(combos@.take(0) =~= Seq::<(i32, HotkeyCombo)>::empty());
            while i < combos.len()
                invariant
                    i <= combos.len(),
                    combos@.len() == replies@.len(),
                    numbers_of(had@) == granted(combos@.take(i as int), replies@),
                    refused@ == refused_of(combos@.take(i as int), replies@),
                decreases combos.len() - i,
            {
                let (id, combo) = combos[i];
                proof {
                    assert(combos@.take(i + 1).drop_last() =~= combos@.take(i as int));
                    assert(combos@.take(i + 1).last() == combos@[i as int]);
                }
                match RegisteredHotkey::register(id, combo, replies[i]) {
                    Ok(hotkey) => {
                        let ghost before = numbers_of(had@);
                        had.push(hotkey);
                        assert(numbers_of(had@) =~= before.push(id));
                    },
                    Err(_) => {
                        refused.push((id, combo));
                    },
                }
                i = i + 1;
            }
            assert(combos@.take(combos@.len() as int) =~= combos@);
        }
        self.media_hotkeys = had;
        self.fallback_media = refused;
        self.refresh_hotkey_hook();
    }

    /// The window answers to a shortcut: the keys lent to videos come and go,
    /// and always count as its own.
    pub open spec fn answers(self, id: i32) -> bool {
        is_media(id) || self.owned@.contains(id) || self.hooked@.contains(id)
    }

    /// What a press of a shortcut means to this window. Other windows of the
    /// application see the same message, so only the one that has the shortcut
    /// answers.
    pub fn on_hotkey(&self, id: i32) -> (r: Option<OverlayEvent>)
        ensures
            r == (if self.answers(id) {
                meaning(id)
            } else {
                None
            }),
    {
        let media = id >= MEDIA_PLAY_PAUSE_HOTKEY_ID && id <= MEDIA_VOLUME_DOWN_HOTKEY_ID;
        if !media && !self.owned.contains(&id) && !self.hooked.contains(&id) {
            return None;
        }
        hotkey_event(id)
    }
}

/// What is told of shortcuts that other applications have.
pub open spec fn conflict_events(conflicts: Seq<HotkeyRegistrationConflict>) -> Seq<OverlayEvent>
    decreases conflicts.len(),
{
    if conflicts.len() == 0 {
        seq![]
    } else {
        let before = conflict_events(conflicts.drop_last());
        match name_of(conflicts.last().id) {
            Some(name) => before.push(OverlayEvent::HotkeyConflict(name, conflicts.last().combo)),
            None => before,
        }
    }
}

/// What is told when a window has been set up: each shortcut with a name that
/// another application has.
pub fn events_of_conflicts(report: &HotkeysInstallReport) -> (r: Vec<OverlayEvent>)
    ensures
        r@ == conflict_events(report.conflicts@),
{
    let mut out: Vec<OverlayEvent> = Vec::new();
    let mut i: usize = 0;
    assert(report.conflicts@.take(0) =~= Seq::<HotkeyRegistrationConflict>::empty());
    while i < report.conflicts.len()
        invariant
            i <= report.conflicts.len(),
            out@ == conflict_events(report.conflicts@.take(i as int)),
        decreases report.conflicts.len() - i,
    {
        proof {
            let head = report.conflicts@.take(i + 1);
            assert(head.drop_last() =~= report.conflicts@.take(i as int));
            assert(head.last() == report.conflicts@[i as int]);
        }
        if let Some(name) = hotkey_name_of(report.conflicts[i].id) {
            out.push(OverlayEvent::HotkeyConflict(name, report.conflicts[i].combo.clone()));
        }
        i = i + 1;
    }
    assert(report.conflicts@.take(report.conflicts@.len() as int) =~= report.conflicts@);
    out
}

/// What is told when the shortcuts have been replaced: everything.
pub fn reloaded_event(report: HotkeysInstallReport) -> (r: OverlayEvent)
    ensures
        r == (OverlayEvent::HotkeysReloaded {
            registered: report.registered,
            conflicts: report.conflicts,
        }),
{
    OverlayEvent::HotkeysReloaded { registered: report.registered, conflicts: report.conflicts }
}

/// What a shortcut means, by its number.
pub proof fn meaning_by_number(id: i32)
    ensures
        meaning(id) == Some(OverlayEvent::ToggleEditMode) <==> id == 1,
        meaning(id) == Some(OverlayEvent::ToggleAllStickers) <==> id == 2,
        meaning(id) == Some(OverlayEvent::ToggleMuteAll) <==> id == 3,
        meaning(id) == Some(OverlayEvent::PinFocusedWindow) <==> id == 4,
        meaning(id) == Some(OverlayEvent::MediaPlayPause) <==> id == 5,
        meaning(id) == Some(OverlayEvent::MediaVolumeUp) <==> id == 6,
        meaning(id) == Some(OverlayEvent::MediaVolumeDown) <==> id == 7,
        8 <= id <= 16 ==> meaning(id) == Some(OverlayEvent::OpenGroup((id - 7) as u8)),
        meaning(id) == Some(OverlayEvent::ToggleGroupsMenu) <==> id == 17,
        meaning(id) == Some(OverlayEvent::DeleteOpenGroup) <==> id == 18,
        meaning(id) == Some(OverlayEvent::UnpinAll) <==> id == 19,
        meaning(id) == Some(OverlayEvent::PinTogglePressed) <==> id == 20,
        meaning(id) == Some(OverlayEvent::ToggleMitosisMode) <==> id == 21,
        meaning(id) == Some(OverlayEvent::ToggleWindowCropMode) <==> id == 22,
        meaning(id) is None <==> id < 1 || id > 22,
{
}

/// The shortcuts that are reported by name where another application has them,
/// by their numbers: one to four, twenty-one and twenty-two.
pub proof fn names_by_number(id: i32)
    ensures
        name_of(id) == Some(HotkeyName::EditMode) <==> id == 1,
        name_of(id) == Some(HotkeyName::ToggleAllStickers) <==> id == 2,
        name_of(id) == Some(HotkeyName::MuteAll) <==> id == 3,
        name_of(id) == Some(HotkeyName::PinFocusedWindow) <==> id == 4,
        name_of(id) == Some(HotkeyName::WindowMitosis) <==> id == 21,
        name_of(id) == Some(HotkeyName::WindowCrop) <==> id == 22,
        name_of(id) is None <==> id < 1 || 4 < id < 21 || id > 22,
{
}

/// What is told of shortcuts that other applications have, one after the other:
/// those with a name by that name and their text, the others not at all.
pub proof fn named_conflicts_are_told_in_order(
    conflicts: Seq<HotkeyRegistrationConflict>,
    c: HotkeyRegistrationConflict,
)
    ensures
        ({
            let before = conflict_events(conflicts);
            let after = conflict_events(conflicts.push(c));
            &&& c.id == 1 ==> after == before.push(
                OverlayEvent::HotkeyConflict(HotkeyName::EditMode, c.combo),
            )
            &&& c.id == 2 ==> after == before.push(
                OverlayEvent::HotkeyConflict(HotkeyName::ToggleAllStickers, c.combo),
            )
            &&& c.id == 3 ==> after == before.push(
                OverlayEvent::HotkeyConflict(HotkeyName::MuteAll, c.combo),
            )
            &&& c.id == 4 ==> after == before.push(
                OverlayEvent::HotkeyConflict(HotkeyName::PinFocusedWindow, c.combo),
            )
            &&& c.id == 21 ==> after == before.push(
                OverlayEvent::HotkeyConflict(HotkeyName::WindowMitosis, c.combo),
            )
            &&& c.id == 22 ==> after == before.push(
                OverlayEvent::HotkeyConflict(HotkeyName::WindowCrop, c.combo),
            )
            &&& c.id < 1 || 4 < c.id < 21 || c.id > 22 ==> after == before
        }),
        conflict_events(Seq::empty()) == Seq::<OverlayEvent>::empty(),
{
    assert(conflicts.push(c).drop_last() =~= conflicts);
}

/// The keys of a video are the bare space bar (32) under five, page up (33) under
/// six and page down (34) under seven.
pub proof fn media_keys_by_code()
    ensures
        media_keys().len() == 3,
        forall|i: int|
            0 <= i < 3 ==> {
                let (id, c) = #[trigger] media_keys()[i];
                id == 5 + i && c.vk == 32 + i && !c.ctrl && !c.alt && !c.shift && !c.win
            },
{
}

proof fn first_with_at(combos: Seq<(i32, HotkeyCombo)>, id: i32, i: int)
    requires
        0 <= i < combos.len(),
        combos[i].0 == id,
        forall|j: int| 0 <= j < i ==> (#[trigger] combos[j]).0 != id,
    ensures
        first_with(combos, id) == Some(combos[i]),
    decreases combos.len(),
{
    if i > 0 {
        let rest = combos.drop_first();
        assert(combos[0].0 != id);
        assert(rest[i - 1] == combos[i]);
        assert forall|j: int| 0 <= j < i - 1 implies (#[trigger] rest[j]).0 != id by {
            assert(rest[j] == combos[j + 1]);
        }
        first_with_at(rest, id, i - 1);
    }
}

proof fn first_with_none(combos: Seq<(i32, HotkeyCombo)>, id: i32)
    requires
        forall|j: int| 0 <= j < combos.len() ==> (#[trigger] combos[j]).0 != id,
    ensures
        first_with(combos, id) is None,
    decreases combos.len(),
{
    if combos.len() > 0 {
        let rest = combos.drop_first();
        assert forall|j: int| 0 <= j < rest.len() implies (#[trigger] rest[j]).0 != id by {
            assert(rest[j] == combos[j + 1]);
        }
        first_with_none(rest, id);
    }
}

/// The hook is given the shortcuts that could not be had, number by number: for
/// each number the first shortcut with it, as it was asked for, and nothing for a
/// number that none has.
pub proof fn hook_gets_what_was_asked_for(
    combos: Seq<(i32, HotkeyCombo)>,
    ids: Seq<i32>,
    id: i32,
    i: int,
)
    ensures
        0 <= i < combos.len() && combos[i].0 == id && (forall|j: int|
            0 <= j < i ==> (#[trigger] combos[j]).0 != id) ==> looked_up(combos, ids.push(id))
            == looked_up(combos, ids).push(combos[i]),
        (forall|j: int| 0 <= j < combos.len() ==> (#[trigger] combos[j]).0 != id) ==> looked_up(
            combos,
            ids.push(id),
        ) == looked_up(combos, ids),
        looked_up(combos, Seq::empty()) == Seq::<(i32, HotkeyCombo)>::empty(),
{
    assert(ids.push(id).drop_last() =~= ids);
    if 0 <= i < combos.len() && combos[i].0 == id && (forall|j: int|
        0 <= j < i ==> (#[trigger] combos[j]).0 != id) {
        first_with_at(combos, id, i);
    }
    if forall|j: int| 0 <= j < combos.len() ==> (#[trigger] combos[j]).0 != id {
        first_with_none(combos, id);
    }
}

/// Of shortcuts asked for one by one, those that were not granted are left to the
/// hook, for whatever reason, in the order that they were asked for.
pub proof fn refused_keys_are_left_to_the_hook(
    combos: Seq<(i32, HotkeyCombo)>,
    replies: Seq<SystemReply>,
    id: i32,
    combo: HotkeyCombo,
)
    requires
        replies.len() > combos.len(),
    ensures
        ({
            let had = 0 <= id < 0xC000 && replies[combos.len() as int] is Granted;
            &&& had ==> refused_of(combos.push((id, combo)), replies) == refused_of(combos, replies)
            &&& !had ==> refused_of(combos.push((id, combo)), replies) == refused_of(
                combos,
                replies,
            ).push((id, combo))
        }),
        refused_of(Seq::empty(), replies) == Seq::<(i32, HotkeyCombo)>::empty(),
{
    assert(combos.push((id, combo)).drop_last() =~= combos);
    crate::hotkey::registration::reply_means_one_thing(id, replies[combos.len() as int]);
}

/// A window answers to the keys of videos, which are five, six and seven, and to
/// a shortcut that it has or that the hook sees for it, and to no other.
pub proof fn window_answers_to_its_own(desk: HotkeyDesk, id: i32)
    requires
        desk.well_formed(),
    ensures
        desk.answers(id) <==> id == 5 || id == 6 || id == 7 || (exists|i: int|
            0 <= i < desk.hotkeys@.len() && (#[trigger] desk.hotkeys@[i]).number == id) || (
        exists|i: int|
            0 <= i < desk.fallback_permanent@.len() && (#[trigger] desk.fallback_permanent@[i]).0
                == id) || (exists|i: int|
            0 <= i < desk.fallback_media@.len() && (#[trigger] desk.fallback_media@[i]).0 == id),
{
    let own = numbers_of(desk.hotkeys@);
    let seen = numbers(desk.fallbacks());
    let n = desk.fallback_permanent@.len() as int;
    if own.contains(id) {
        let i = choose|i: int| 0 <= i < own.len() && own[i] == id;
        assert(desk.hotkeys@[i].number == id);
    }
    if seen.contains(id) {
        let i = choose|i: int| 0 <= i < seen.len() && seen[i] == id;
        if i < n {
            assert(desk.fallback_permanent@[i].0 == id);
        } else {
            assert(desk.fallback_media@[i - n].0 == id);
        }
    }
    if exists|i: int| 0 <= i < desk.hotkeys@.len() && (#[trigger] desk.hotkeys@[i]).number == id {
        let i = choose|i: int|
            0 <= i < desk.hotkeys@.len() && (#[trigger] desk.hotkeys@[i]).number == id;
        assert(own[i] == id);
    }
    if exists|i: int|
        0 <= i < desk.fallback_permanent@.len() && (#[trigger] desk.fallback_permanent@[i]).0
            == id {
        let i = choose|i: int|
            0 <= i < desk.fallback_permanent@.len() && (#[trigger] desk.fallback_permanent@[i]).0
                == id;
        assert(seen[i] == id);
    }
    if exists|i: int|
        0 <= i < desk.fallback_media@.len() && (#[trigger] desk.fallback_media@[i]).0 == id {
        let i = choose|i: int|
            0 <= i < desk.fallback_media@.len() && (#[trigger] desk.fallback_media@[i]).0 == id;
        assert(seen[n + i] == id);
    }
}

proof fn optional_has(id: i32, combo: Option<HotkeyCombo>, x: (i32, HotkeyCombo))
    ensures
        optional(id, combo).contains(x) <==> x.0 == id && combo == Some(x.1),
{
    if x.0 == id && combo == Some(x.1) {
        assert(optional(id, combo)[0] == x);
    }
}

proof fn either_has(a: Seq<(i32, HotkeyCombo)>, b: Seq<(i32, HotkeyCombo)>, x: (i32, HotkeyCombo))
    ensures
        (a + b).contains(x) <==> a.contains(x) || b.contains(x),
{
    let all = a + b;
    if a.contains(x) {
        let i = choose|i: int| 0 <= i < a.len() && a[i] == x;
        assert(all[i] == x);
    }
    if b.contains(x) {
        let i = choose|i: int| 0 <= i < b.len() && b[i] == x;
        assert(all[a.len() + i] == x);
    }
    if all.contains(x) {
        let i = choose|i: int| 0 <= i < all.len() && all[i] == x;
        if i < a.len() {
            assert(a[i] == x);
        } else {
            assert(b[i - a.len()] == x);
        }
    }
}

/// A window asks for the edit mode under one, all stickers under two, muting under
/// three and the focused window under four, each where it is assigned, and for the
/// groups' shortcuts under their own numbers; for nothing else.
pub proof fn window_asks_for_what_is_assigned(
    edit: Option<HotkeyCombo>,
    toggle_all: Option<HotkeyCombo>,
    mute_all: Option<HotkeyCombo>,
    pin_focused: Option<HotkeyCombo>,
    groups: Seq<(i32, HotkeyCombo)>,
    id: i32,
    c: HotkeyCombo,
)
    ensures
        spec_initial_combos(edit, toggle_all, mute_all, pin_focused, groups).contains((id, c))
            <==> groups.contains((id, c)) || (id == 1 && edit == Some(c)) || (id == 2 && toggle_all
            == Some(c)) || (id == 3 && mute_all == Some(c)) || (id == 4 && pin_focused == Some(c)),
{
    let x = (id, c);
    let a = optional(1, edit);
    let b = optional(2, toggle_all);
    let d = optional(3, mute_all);
    let e = optional(4, pin_focused);
    optional_has(1, edit, x);
    optional_has(2, toggle_all, x);
    optional_has(3, mute_all, x);
    optional_has(4, pin_focused, x);
    either_has(a, b, x);
    either_has(a + b, d, x);
    either_has(a + b + d, e, x);
    either_has(a + b + d + e, groups, x);
}

} // verus!
