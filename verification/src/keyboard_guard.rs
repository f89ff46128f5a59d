//! The keyboard of the tiling mode: a hook that keeps some chords from the
//! other applications and reports them, and leaves every other key alone.

use vstd::prelude::*;

use crate::winapi::{
    VK_LCONTROL, VK_LMENU, VK_LSHIFT, VK_LWIN, VK_RCONTROL, VK_RMENU, VK_RSHIFT, VK_RWIN,
    WM_KEYDOWN, WM_KEYUP, WM_SYSKEYDOWN, WM_SYSKEYUP,
};

verus! {

/// A key with modifiers.
#[derive(Debug, Clone, Copy, PartialEq, Eq, Hash, Structural)]
pub struct Chord {
    /// The key's virtual code.
    pub vk: u32,
    pub ctrl: bool,
    pub alt: bool,
    pub shift: bool,
    pub win: bool,
}

impl Default for Chord {
    fn default() -> (r: Self)
        ensures
            r == (Chord { vk: 0, ctrl: false, alt: false, shift: false, win: false }),
    {
        Chord { vk: 0, ctrl: false, alt: false, shift: false, win: false }
    }
}

/// The left and the right key of each modifier count apart: letting go of one
/// does not let go of the other.
pub const M_LCTRL: u8 = 1;

pub const M_RCTRL: u8 = 2;

pub const M_LALT: u8 = 4;

pub const M_RALT: u8 = 8;

pub const M_LSHIFT: u8 = 16;

pub const M_RSHIFT: u8 = 32;

pub const M_LWIN: u8 = 64;

pub const M_RWIN: u8 = 128;

/// The key that is pressed in between so that letting go of the Windows key
/// does not open the start menu: no keyboard has it.
pub const MASK_VK: u32 = 0x87;

/// Input for this long without a call of the hook means that the hook is gone.
pub const SILENCE_MS: u64 = 3_000;

/// The hook is not set again sooner than this.
pub const REINSTALL_COOLDOWN_MS: u64 = 5_000;

/// How often it is looked after.
pub const WATCHDOG_PERIOD_MS: u64 = 1_000;

/// A modifier whose release is to be reported.
#[derive(Debug, Clone, Copy, PartialEq, Eq, Structural)]
pub enum WatchedModifier {
    Ctrl,
    Alt,
    Shift,
    Win,
}

impl WatchedModifier {
    /// The bits of both keys of the modifier.
    pub open spec fn spec_bits(self) -> u8 {
        match self {
            WatchedModifier::Ctrl => 3,
            WatchedModifier::Alt => 12,
            WatchedModifier::Shift => 48,
            WatchedModifier::Win => 192,
        }
    }

    /// The bits of both keys of the modifier.
    pub fn bits(self) -> (r: u8)
        ensures
            r == self.spec_bits(),
    {
        assert(1u8 | 2u8 == 3u8 && 4u8 | 8u8 == 12u8 && 16u8 | 32u8 == 48u8 && 64u8 | 128u8
            == 192u8) by (bit_vector);
        match self {
            WatchedModifier::Ctrl => M_LCTRL | M_RCTRL,
            WatchedModifier::Alt => M_LALT | M_RALT,
            WatchedModifier::Shift => M_LSHIFT | M_RSHIFT,
            WatchedModifier::Win => M_LWIN | M_RWIN,
        }
    }
}

/// What the guard reports.
#[derive(Debug, Clone, Copy, PartialEq, Eq, Structural)]
pub enum KeyEvent {
    /// One of the chords that are kept was pressed.
    Chord(Chord),
    /// The watched modifier is up, both its keys.
    ModifierUp(WatchedModifier),
}

/// The bits to watch for; none where nothing is watched.
pub open spec fn watched_bits(watched: Option<WatchedModifier>) -> u8 {
    match watched {
        Some(m) => m.spec_bits(),
        None => 0,
    }
}

/// The bits to watch for; none where nothing is watched.
pub fn watch_modifier_release(watched: Option<WatchedModifier>) -> (r: u8)
    ensures
        r == watched_bits(watched),
{
    match watched {
        Some(m) => m.bits(),
        None => 0,
    }
}

/// The modifier that these bits stand for.
pub open spec fn kind_of_bits(bits: u8) -> Option<WatchedModifier> {
    if bits == 3 {
        Some(WatchedModifier::Ctrl)
    } else if bits == 12 {
        Some(WatchedModifier::Alt)
    } else if bits == 48 {
        Some(WatchedModifier::Shift)
    } else if bits == 192 {
        Some(WatchedModifier::Win)
    } else {
        None
    }
}

/// The modifier that these bits stand for.
pub fn watched_kind(bits: u8) -> (r: Option<WatchedModifier>)
    ensures
        r == kind_of_bits(bits),
{
    if bits == WatchedModifier::Ctrl.bits() {
        Some(WatchedModifier::Ctrl)
    } else if bits == WatchedModifier::Alt.bits() {
        Some(WatchedModifier::Alt)
    } else if bits == WatchedModifier::Shift.bits() {
        Some(WatchedModifier::Shift)
    } else if bits == WatchedModifier::Win.bits() {
        Some(WatchedModifier::Win)
    } else {
        None
    }
}

/// Bits and modifiers stand for each other, and no bits stand for none.
pub proof fn bits_and_kinds_match(kind: WatchedModifier, bits: u8)
    ensures
        kind_of_bits(kind.spec_bits()) == Some(kind),
        kind_of_bits(bits) == Some(kind) <==> bits == kind.spec_bits(),
        kind_of_bits(watched_bits(None)) is None,
        kind_of_bits(watched_bits(Some(kind))) == Some(kind),
{
}

/// The bit of a modifier key; other keys have none.
pub open spec fn bit_of_key(vk: u32) -> Option<u8> {
    let code = vk as u16;
    if code == VK_LCONTROL {
        Some(M_LCTRL)
    } else if code == VK_RCONTROL {
        Some(M_RCTRL)
    } else if code == VK_LMENU {
        Some(M_LALT)
    } else if code == VK_RMENU {
        Some(M_RALT)
    } else if code == VK_LSHIFT {
        Some(M_LSHIFT)
    } else if code == VK_RSHIFT {
        Some(M_RSHIFT)
    } else if code == VK_LWIN {
        Some(M_LWIN)
    } else if code == VK_RWIN {
        Some(M_RWIN)
    } else {
        None
    }
}

/// The bit of a modifier key; other keys have none.
pub fn modifier_bit(vk: u32) -> (r: Option<u8>)
    ensures
        r == bit_of_key(vk),
{
    let code: u32 = (vk as u16) as u32;
    if code == VK_LCONTROL {
        Some(M_LCTRL)
    } else if code == VK_RCONTROL {
        Some(M_RCTRL)
    } else if code == VK_LMENU {
        Some(M_LALT)
    } else if code == VK_RMENU {
        Some(M_RALT)
    } else if code == VK_LSHIFT {
        Some(M_LSHIFT)
    } else if code == VK_RSHIFT {
        Some(M_RSHIFT)
    } else if code == VK_LWIN {
        Some(M_LWIN)
    } else if code == VK_RWIN {
        Some(M_RWIN)
    } else {
        None
    }
}

/// Which modifier keys are down.
#[derive(Debug, Clone, Copy, PartialEq, Eq, Structural)]
pub struct HeldKeys {
    pub left_ctrl: bool,
    pub right_ctrl: bool,
    pub left_alt: bool,
    pub right_alt: bool,
    pub left_shift: bool,
    pub right_shift: bool,
    pub left_win: bool,
    pub right_win: bool,
}

/// A bit where it is held.
pub open spec fn held_bit(held: bool, bit: u8) -> u8 {
    if held {
        bit
    } else {
        0
    }
}

fn bit_if(held: bool, bit: u8) -> (r: u8)
    ensures
        r == held_bit(held, bit),
{
    if held {
        bit
    } else {
        0
    }
}

impl HeldKeys {
    /// The bits of the keys that are down.
    pub open spec fn spec_bits(self) -> u8 {
        held_bit(self.left_ctrl, M_LCTRL) | held_bit(self.right_ctrl, M_RCTRL) | held_bit(
            self.left_alt,
            M_LALT,
        ) | held_bit(self.right_alt, M_RALT) | held_bit(self.left_shift, M_LSHIFT) | held_bit(
            self.right_shift,
            M_RSHIFT,
        ) | held_bit(self.left_win, M_LWIN) | held_bit(self.right_win, M_RWIN)
    }
}

/// The modifiers that are down when the hook is set.
pub fn initial_mods(held: &HeldKeys) -> (r: u8)
    ensures
        r == held.spec_bits(),
{
    bit_if(held.left_ctrl, M_LCTRL) | bit_if(held.right_ctrl, M_RCTRL) | bit_if(
        held.left_alt,
        M_LALT,
    ) | bit_if(held.right_alt, M_RALT) | bit_if(held.left_shift, M_LSHIFT) | bit_if(
        held.right_shift,
        M_RSHIFT,
    ) | bit_if(held.left_win, M_LWIN) | bit_if(held.right_win, M_RWIN)
}

/// A key with the modifiers that are down, either side of each.
pub open spec fn spec_chord_from(vk: u32, mods: u8) -> Chord {
    Chord {
        vk,
        ctrl: mods & 3 != 0,
        alt: mods & 12 != 0,
        shift: mods & 48 != 0,
        win: mods & 192 != 0,
    }
}

/// A key with the modifiers that are down, either side of each.
pub fn chord_from(vk: u32, mods: u8) -> (r: Chord)
    ensures
        r == spec_chord_from(vk, mods),
{
    Chord {
        vk,
        ctrl: mods & WatchedModifier::Ctrl.bits() != 0,
        alt: mods & WatchedModifier::Alt.bits() != 0,
        shift: mods & WatchedModifier::Shift.bits() != 0,
        win: mods & WatchedModifier::Win.bits() != 0,
    }
}

/// A chord has a modifier whichever of its two keys is down.
pub proof fn chords_read_both_sides(vk: u32, held: HeldKeys)
    ensures
        spec_chord_from(vk, held.spec_bits()) == (Chord {
            vk,
            ctrl: held.left_ctrl || held.right_ctrl,
            alt: held.left_alt || held.right_alt,
            shift: held.left_shift || held.right_shift,
            win: held.left_win || held.right_win,
        }),
{
    let a = held_bit(held.left_ctrl, M_LCTRL);
    let b = held_bit(held.right_ctrl, M_RCTRL);
    let c = held_bit(held.left_alt, M_LALT);
    let d = held_bit(held.right_alt, M_RALT);
    let e = held_bit(held.left_shift, M_LSHIFT);
    let f = held_bit(held.right_shift, M_RSHIFT);
    let g = held_bit(held.left_win, M_LWIN);
    let h = held_bit(held.right_win, M_RWIN);
    assert(((a | b | c | d | e | f | g | h) & 3 != 0) == (a != 0 || b != 0) && ((a | b | c | d | e
        | f | g | h) & 12 != 0) == (c != 0 || d != 0) && ((a | b | c | d | e | f | g | h) & 48 != 0)
        == (e != 0 || f != 0) && ((a | b | c | d | e | f | g | h) & 192 != 0) == (g != 0 || h
        != 0)) by (bit_vector)
        requires
            a == 0u8 || a == 1u8,
            b == 0u8 || b == 2u8,
            c == 0u8 || c == 4u8,
            d == 0u8 || d == 8u8,
            e == 0u8 || e == 16u8,
            f == 0u8 || f == 32u8,
            g == 0u8 || g == 64u8,
            h == 0u8 || h == 128u8,
    ;
}

/// Replace the chords that are kept.
pub fn set_swallow_set(table: &mut Vec<Chord>, chords: Vec<Chord>)
    ensures
        final(table)@ == chords@,
{
    *table = chords;
}

/// Whether a chord is kept. A table that is being replaced at this very moment
/// keeps nothing: the key goes to the application.
pub fn should_swallow(table: Option<&Vec<Chord>>, chord: Chord) -> (r: bool)
    ensures
        r == kept(table, chord),
{
    match table {
        Some(chords) => {
            let mut i: usize = 0;
            while i < chords.len()
                invariant
                    table == Some(chords),
                    i <= chords.len(),
                    forall|j: int| 0 <= j < i ==> chords@[j] != chord,
                decreases chords.len() - i,
            {
                if chords[i] == chord {
                    assert(chords@[i as int] == chord);
                    return true;
                }
                i = i + 1;
            }
            false
        },
        None => false,
    }
}

/// A chord is kept: it is in the table.
pub open spec fn kept(table: Option<&Vec<Chord>>, chord: Chord) -> bool {
    match table {
        Some(chords) => chords@.contains(chord),
        None => false,
    }
}

/// A call of the hook.
#[derive(Debug, Clone, Copy, PartialEq, Eq, Structural)]
pub struct KeyMessage {
    /// Negative where the call is not for this hook.
    pub code: i32,
    /// The key was not pressed by hand.
    pub injected: bool,
    pub vk: u32,
    pub msg: u32,
}

impl KeyMessage {
    pub open spec fn is_down(self) -> bool {
        self.msg == WM_KEYDOWN || self.msg == WM_SYSKEYDOWN
    }

    pub open spec fn is_up(self) -> bool {
        self.msg == WM_KEYUP || self.msg == WM_SYSKEYUP
    }

    /// A call that the hook has nothing to say to.
    pub open spec fn is_foreign(self) -> bool {
        self.code < 0 || self.injected
    }
}

/// What the hook does with a call.
#[derive(Debug, Clone, Copy, PartialEq, Eq, Structural)]
pub enum HookStep {
    /// The key goes to the application.
    Pass,
    /// The key goes to the application, and this is reported.
    PassAndReport(WatchedModifier),
    /// The application does not see the key.
    Swallow,
    /// The chord is reported; what came of that goes to
    /// [`GuardState::on_delivery`].
    Offer(Chord),
}

/// The hook's memory: the modifiers that are down, and the keys whose press it
/// has kept.
#[derive(Debug, PartialEq, Eq)]
pub struct GuardState {
    pub mods: u8,
    pub swallowed: Vec<u32>,
}

impl GuardState {
    /// No key is remembered twice.
    pub open spec fn well_formed(self) -> bool {
        self.swallowed@.no_duplicates()
    }

    /// The keys whose press was kept.
    pub open spec fn held_back(self) -> Set<u32> {
        self.swallowed@.to_set()
    }

    /// Nothing kept yet.
    pub fn new(mods: u8) -> (r: Self)
        ensures
            r.mods == mods,
            r.held_back() == Set::<u32>::empty(),
            r.well_formed(),
    {
        let r = Self { mods, swallowed: Vec::new() };
        assert(r.held_back() =~= Set::<u32>::empty());
        r
    }

    /// The modifiers that are down after a call.
    pub open spec fn mods_after(self, k: KeyMessage) -> u8 {
        match bit_of_key(k.vk) {
            Some(bit) => if k.is_foreign() {
                self.mods
            } else if k.is_down() {
                self.mods | bit
            } else if k.is_up() {
                self.mods & !bit
            } else {
                self.mods
            },
            None => self.mods,
        }
    }

    /// What the hook does with a call. A modifier always passes; the release of
    /// the watched one is reported once neither of its keys is down. The
    /// release of a key whose press was kept is kept too. A chord of the table
    /// is offered.
    pub open spec fn step(self, k: KeyMessage, table: Option<&Vec<Chord>>, watched: u8) -> HookStep {
        let chord = spec_chord_from(k.vk, self.mods);
        if k.is_foreign() {
            HookStep::Pass
        } else if let Some(bit) = bit_of_key(k.vk) {
            match kind_of_bits(watched) {
                Some(kind) => if k.is_up() && bit & watched != 0 && self.mods_after(k) & watched
                    == 0 {
                    HookStep::PassAndReport(kind)
                } else {
                    HookStep::Pass
                },
                None => HookStep::Pass,
            }
        } else if k.is_up() {
            if self.held_back().contains(k.vk) {
                HookStep::Swallow
            } else {
                HookStep::Pass
            }
        } else if k.is_down() && kept(table, chord) {
            HookStep::Offer(chord)
        } else {
            HookStep::Pass
        }
    }

    /// The keys whose press is remembered after a call.
    pub open spec fn held_back_after(self, k: KeyMessage) -> Set<u32> {
        if !k.is_foreign() && bit_of_key(k.vk) is None && k.is_up() {
            self.held_back().remove(k.vk)
        } else {
            self.held_back()
        }
    }

    fn release(&mut self, vk: u32) -> (r: bool)
        requires
            old(self).well_formed(),
        ensures
            final(self).well_formed(),
            final(self).mods == old(self).mods,
            final(self).held_back() == old(self).held_back().remove(vk),
            r == old(self).held_back().contains(vk),
    {
        let ghost before = self.swallowed@;
        let mut i: usize = 0;
        while i < self.swallowed.len()
            invariant
                i <= self.swallowed.len(),
                self.swallowed@ == before,
                before.no_duplicates(),
                self.mods == old(self).mods,
                old(self).swallowed@ == before,
                forall|j: int| 0 <= j < i ==> before[j] != vk,
            decreases self.swallowed.len() - i,
        {
            if self.swallowed[i] == vk {
                self.swallowed.swap_remove(i);
                proof {
                    let after = self.swallowed@;
                    let n = before.len() - 1;
                    assert(before[i as int] == vk);
                    assert forall|x: u32| after.to_set().contains(x) == before.to_set().remove(
                        vk,
                    ).contains(x) by {
                        if after.contains(x) {
                            let j = choose|j: int| 0 <= j < after.len() && after[j] == x;
                            if j == i {
                                assert(before[n] == x);
                            } else {
                                assert(before[j] == x);
                            }
                        }
                        if before.contains(x) && x != vk {
                            let j = choose|j: int| 0 <= j < before.len() && before[j] == x;
                            if j == n {
                                assert(after[i as int] == x);
                            } else {
                                assert(after[j] == x);
                            }
                        }
                    }
                    assert(after.to_set() =~= before.to_set().remove(vk));
                }
                return true;
            }
            i = i + 1;
        }
        proof {
            assert(!before.to_set().contains(vk));
            assert(before.to_set().remove(vk) =~= before.to_set());
        }
        false
    }

    /// Handle a call of the hook.
    pub fn on_key(&mut self, k: &KeyMessage, table: Option<&Vec<Chord>>, watched: u8) -> (r:
        HookStep)
        requires
            old(self).well_formed(),
        ensures
            final(self).well_formed(),
            r == old(self).step(*k, table, watched),
            final(self).mods == old(self).mods_after(*k),
            final(self).held_back() == old(self).held_back_after(*k),
    {
        if k.code < 0 || k.injected {
            return HookStep::Pass;
        }
        let is_down = k.msg == WM_KEYDOWN || k.msg == WM_SYSKEYDOWN;
        let is_up = k.msg == WM_KEYUP || k.msg == WM_SYSKEYUP;
        if let Some(bit) = modifier_bit(k.vk) {
            if is_down {
                self.mods = self.mods | bit;
            } else if is_up {
                self.mods = self.mods & !bit;
            }
            if is_up && watched != 0 && bit & watched != 0 && self.mods & watched == 0 {
                if let Some(kind) = watched_kind(watched) {
                    return HookStep::PassAndReport(kind);
                }
            }
            return HookStep::Pass;
        }
        if is_up {
            if self.release(k.vk) {
                return HookStep::Swallow;
            }
        } else if is_down {
            let chord = chord_from(k.vk, self.mods);
            if should_swallow(table, chord) {
                return HookStep::Offer(chord);
            }
        }
        HookStep::Pass
    }

    /// The keys whose press is remembered after a chord was offered.
    pub open spec fn held_back_after_delivery(self, chord: Chord, delivered: bool) -> Set<u32> {
        if delivered {
            self.held_back().insert(chord.vk)
        } else {
            self.held_back()
        }
    }

    /// Whether the Windows key has to be masked after a chord was offered; nothing
    /// where the key goes to the application.
    pub open spec fn mask_after_delivery(chord: Chord, delivered: bool) -> Option<bool> {
        if delivered {
            Some(chord.win)
        } else {
            None
        }
    }

    /// Take up whether an offered chord found someone to take it. If so the
    /// application does not see the press, and will not see the release; the
    /// answer says whether the Windows key has to be masked. If not, the key
    /// goes to the application.
    pub fn on_delivery(&mut self, chord: Chord, delivered: bool) -> (r: Option<bool>)
        requires
            old(self).well_formed(),
        ensures
            final(self).well_formed(),
            final(self).mods == old(self).mods,
            r == Self::mask_after_delivery(chord, delivered),
            final(self).held_back() == old(self).held_back_after_delivery(chord, delivered),
            r == (if delivered {
                Some(chord.win)
            } else {
                None::<bool>
            }),
            final(self).held_back() == (if delivered {
                old(self).held_back().insert(chord.vk)
            } else {
                old(self).held_back()
            }),
    {
        if !delivered {
            return None;
        }
        let ghost before = self.swallowed@;
        let mut i: usize = 0;
        while i < self.swallowed.len()
            invariant
                delivered,
                i <= self.swallowed.len(),
                self.swallowed@ == before,
                before.no_duplicates(),
                self.mods == old(self).mods,
                old(self).swallowed@ == before,
                forall|j: int| 0 <= j < i ==> before[j] != chord.vk,
            decreases self.swallowed.len() - i,
        {
            if self.swallowed[i] == chord.vk {
                proof {
                    assert(before.to_set().contains(chord.vk));
                    assert(before.to_set().insert(chord.vk) =~= before.to_set());
                }
                return Some(chord.win);
            }
            i = i + 1;
        }
        self.swallowed.push(chord.vk);
        proof {
            let after = self.swallowed@;
            assert forall|x: u32| after.to_set().contains(x) == before.to_set().insert(
                chord.vk,
            ).contains(x) by {
                if before.contains(x) {
                    let j = choose|j: int| 0 <= j < before.len() && before[j] == x;
                    assert(after[j] == x);
                }
                if x == chord.vk {
                    assert(after[before.len() as int] == x);
                }
            }
            assert(after.to_set() =~= before.to_set().insert(chord.vk));
        }
        Some(chord.win)
    }
}

/// A modifier is never kept from the applications, and neither is a key that
/// was not pressed by hand.
pub proof fn modifiers_always_pass(
    s: GuardState,
    k: KeyMessage,
    table: Option<&Vec<Chord>>,
    watched: u8,
)
    ensures
        bit_of_key(k.vk) is Some || k.is_foreign() ==> s.step(k, table, watched) is Pass || s.step(
            k,
            table,
            watched,
        ) is PassAndReport,
        k.is_foreign() ==> s.step(k, table, watched) is Pass && s.mods_after(k) == s.mods
            && s.held_back_after(k) == s.held_back(),
{
}

/// Presses and releases are kept in pairs: a release is kept exactly where the
/// press was, and only the first one.
pub proof fn releases_follow_presses(
    s: GuardState,
    k: KeyMessage,
    table: Option<&Vec<Chord>>,
    watched: u8,
)
    requires
        !k.is_foreign(),
        bit_of_key(k.vk) is None,
        k.is_up(),
    ensures
        s.step(k, table, watched) is Swallow <==> s.held_back().contains(k.vk),
        !s.held_back_after(k).contains(k.vk),
{
}

/// With an empty table nothing is ever offered.
pub proof fn empty_table_offers_nothing(
    s: GuardState,
    k: KeyMessage,
    table: Option<&Vec<Chord>>,
    watched: u8,
)
    requires
        table is None || table->0@.len() == 0,
    ensures
        !(s.step(k, table, watched) is Offer),
{
}

/// The release of a watched modifier is reported only when the last of its two
/// keys is up, and a chord no longer has that modifier then.
pub proof fn watched_release_is_whole(
    s: GuardState,
    k: KeyMessage,
    table: Option<&Vec<Chord>>,
    kind: WatchedModifier,
    vk: u32,
)
    requires
        s.step(k, table, kind.spec_bits()) is PassAndReport,
    ensures
        s.step(k, table, kind.spec_bits()) == HookStep::PassAndReport(kind),
        s.mods_after(k) & kind.spec_bits() == 0,
        kind is Alt ==> !spec_chord_from(vk, s.mods_after(k)).alt,
        kind is Ctrl ==> !spec_chord_from(vk, s.mods_after(k)).ctrl,
        kind is Shift ==> !spec_chord_from(vk, s.mods_after(k)).shift,
        kind is Win ==> !spec_chord_from(vk, s.mods_after(k)).win,
{
}

/// The hook has to be set anew: there was input a moment ago, the hook has been
/// silent too long, it was not set anew a moment ago, and there is a thread to
/// do it.
pub open spec fn hook_is_gone(last_reinstall: u64, now: u64, input: u64, seen: u64, pump: u64) -> bool {
    &&& input != 0
    &&& now - input <= SILENCE_MS
    &&& now - seen >= SILENCE_MS
    &&& last_reinstall == 0 || now - last_reinstall >= REINSTALL_COOLDOWN_MS
    &&& pump != 0
}

/// Look after the hook: the system takes one away without a word. `input` is
/// when anything was last pressed or moved, `seen` when the hook was last
/// called, `pump` the thread that can set it anew.
pub fn watchdog_tick(last_reinstall: &mut u64, now: u64, input: u64, seen: u64, pump: u64) -> (r: bool)
    ensures
        r == hook_is_gone(*old(last_reinstall), now, input, seen, pump),
        *final(last_reinstall) == (if r {
            now
        } else {
            *old(last_reinstall)
        }),
{
    if input == 0 || now.saturating_sub(input) > SILENCE_MS {
        return false;
    }
    if now.saturating_sub(seen) < SILENCE_MS {
        return false;
    }
    if *last_reinstall != 0 && now.saturating_sub(*last_reinstall) < REINSTALL_COOLDOWN_MS {
        return false;
    }
    if pump == 0 {
        return false;
    }
    *last_reinstall = now;
    true
}

/// The eight modifier keys by their codes, each with a bit of its own; no other
/// key has one.
pub proof fn modifier_keys_by_code(vk: u32)
    ensures
        ({
            let code = vk % 0x1_0000;
            &&& bit_of_key(vk) == Some(1u8) <==> code == 0xA2
            &&& bit_of_key(vk) == Some(2u8) <==> code == 0xA3
            &&& bit_of_key(vk) == Some(4u8) <==> code == 0xA4
            &&& bit_of_key(vk) == Some(8u8) <==> code == 0xA5
            &&& bit_of_key(vk) == Some(16u8) <==> code == 0xA0
            &&& bit_of_key(vk) == Some(32u8) <==> code == 0xA1
            &&& bit_of_key(vk) == Some(64u8) <==> code == 0x5B
            &&& bit_of_key(vk) == Some(128u8) <==> code == 0x5C
            &&& bit_of_key(vk) is None <==> !(0xA0 <= code <= 0xA5 || code == 0x5B || code == 0x5C)
        }),
{
    assert((vk as u16) as u32 == vk % 0x1_0000) by (bit_vector);
}

/// A key that is pressed by hand and is no modifier is offered exactly where its
/// chord with the modifiers held is in the table, whether the press comes as an
/// ordinary one (0x100) or with Alt held (0x104); otherwise it passes. The
/// modifiers of the chord are those of which either key is down.
pub proof fn pressed_chord_is_offered(
    s: GuardState,
    k: KeyMessage,
    table: Option<&Vec<Chord>>,
    watched: u8,
    chord: Chord,
)
    requires
        k.code >= 0,
        !k.injected,
        k.msg == 0x100 || k.msg == 0x104,
        !(0xA0 <= k.vk % 0x1_0000 <= 0xA5 || k.vk % 0x1_0000 == 0x5B || k.vk % 0x1_0000 == 0x5C),
        chord.vk == k.vk,
        chord.ctrl == (s.mods & 1 != 0 || s.mods & 2 != 0),
        chord.alt == (s.mods & 4 != 0 || s.mods & 8 != 0),
        chord.shift == (s.mods & 16 != 0 || s.mods & 32 != 0),
        chord.win == (s.mods & 64 != 0 || s.mods & 128 != 0),
    ensures
        table matches Some(chords) && chords@.contains(chord) ==> s.step(k, table, watched)
            == HookStep::Offer(chord),
        !(table matches Some(chords) && chords@.contains(chord)) ==> s.step(k, table, watched)
            == HookStep::Pass,
        s.mods_after(k) == s.mods,
        s.held_back_after(k) == s.held_back(),
{
    modifier_keys_by_code(k.vk);
    let mods = s.mods;
    assert((mods & 3 != 0) == (mods & 1 != 0 || mods & 2 != 0) && (mods & 12 != 0) == (mods & 4 != 0
        || mods & 8 != 0) && (mods & 48 != 0) == (mods & 16 != 0 || mods & 32 != 0) && (mods & 192
        != 0) == (mods & 64 != 0 || mods & 128 != 0)) by (bit_vector);
}

/// A modifier that is pressed by hand, in either way (0x100, 0x104), is down
/// afterwards; one that is let go, in either way (0x101, 0x105), is up. Nothing
/// else changes, and the press passes without a report.
pub proof fn modifier_is_down_while_held(
    s: GuardState,
    k: KeyMessage,
    table: Option<&Vec<Chord>>,
    watched: u8,
    bit: u8,
)
    requires
        k.code >= 0,
        !k.injected,
        (k.vk == 0xA2 && bit == 1) || (k.vk == 0xA3 && bit == 2) || (k.vk == 0xA4 && bit == 4) || (
        k.vk == 0xA5 && bit == 8) || (k.vk == 0xA0 && bit == 16) || (k.vk == 0xA1 && bit == 32) || (
        k.vk == 0x5B && bit == 64) || (k.vk == 0x5C && bit == 128),
    ensures
        k.msg == 0x100 || k.msg == 0x104 ==> s.mods_after(k) & bit == bit && s.step(
            k,
            table,
            watched,
        ) == HookStep::Pass,
        k.msg == 0x101 || k.msg == 0x105 ==> s.mods_after(k) & bit == 0,
        s.mods_after(k) & !bit == s.mods & !bit,
        s.held_back_after(k) == s.held_back(),
{
    modifier_keys_by_code(k.vk);
    let mods = s.mods;
    assert((mods | bit) & bit == bit && (mods & !bit) & bit == 0 && (mods | bit) & !bit == mods
        & !bit && (mods & !bit) & !bit == mods & !bit) by (bit_vector);
}

/// The release of a watched modifier, in either way (0x101, 0x105), is reported
/// exactly when its other key is not down: `other` is the bit of the same
/// modifier's key on the other side of the keyboard. The release of a modifier
/// that is not watched is not reported.
pub proof fn watched_release_waits_for_the_other_key(
    s: GuardState,
    k: KeyMessage,
    table: Option<&Vec<Chord>>,
    kind: WatchedModifier,
    watched: u8,
    other: u8,
)
    requires
        k.code >= 0,
        !k.injected,
        k.msg == 0x101 || k.msg == 0x105,
        (k.vk == 0xA2 && kind is Ctrl && other == 2) || (k.vk == 0xA3 && kind is Ctrl && other == 1)
            || (k.vk == 0xA4 && kind is Alt && other == 8) || (k.vk == 0xA5 && kind is Alt && other
            == 4) || (k.vk == 0xA0 && kind is Shift && other == 32) || (k.vk == 0xA1
            && kind is Shift && other == 16) || (k.vk == 0x5B && kind is Win && other == 128) || (
        k.vk == 0x5C && kind is Win && other == 64),
        watched == 0 || watched == 3 || watched == 12 || watched == 48 || watched == 192,
    ensures
        ({
            let is_watched = (kind is Ctrl && watched == 3) || (kind is Alt && watched == 12) || (
            kind is Shift && watched == 48) || (kind is Win && watched == 192);
            &&& is_watched && s.mods & other == 0 ==> s.step(k, table, watched)
                == HookStep::PassAndReport(kind)
            &&& !is_watched || s.mods & other != 0 ==> s.step(k, table, watched) == HookStep::Pass
        }),
{
    modifier_keys_by_code(k.vk);
    let mods = s.mods;
    let bit = bit_of_key(k.vk)->0;
    assert((bit & watched != 0) == ((bit <= 2 && watched == 3) || (4 <= bit <= 8 && watched == 12)
        || (16 <= bit <= 32 && watched == 48) || (64 <= bit <= 128 && watched == 192))) by (bit_vector)
        requires
            bit == 1 || bit == 2 || bit == 4 || bit == 8 || bit == 16 || bit == 32 || bit == 64
                || bit == 128,
            watched == 0 || watched == 3 || watched == 12 || watched == 48 || watched == 192,
    ;
    if bit & watched != 0 {
        assert(bit | other == watched && bit & other == 0) by {
            assert(1u8 | 2u8 == 3u8 && 2u8 | 1u8 == 3u8 && 4u8 | 8u8 == 12u8 && 8u8 | 4u8 == 12u8
                && 16u8 | 32u8 == 48u8 && 32u8 | 16u8 == 48u8 && 64u8 | 128u8 == 192u8 && 128u8
                | 64u8 == 192u8 && 1u8 & 2u8 == 0u8 && 2u8 & 1u8 == 0u8 && 4u8 & 8u8 == 0u8 && 8u8
                & 4u8 == 0u8 && 16u8 & 32u8 == 0u8 && 32u8 & 16u8 == 0u8 && 64u8 & 128u8 == 0u8
                && 128u8 & 64u8 == 0u8) by (bit_vector);
        }
        assert(((mods & !bit) & watched == 0) == (mods & other == 0)) by (bit_vector)
            requires
                bit | other == watched,
                bit & other == 0,
        ;
    }
}

/// The release of a key that is no modifier, in either way (0x101, 0x105), is
/// kept from the application exactly where the press was, and that key is then
/// forgotten; every other key is remembered as before.
pub proof fn release_is_kept_with_its_press(
    s: GuardState,
    k: KeyMessage,
    table: Option<&Vec<Chord>>,
    watched: u8,
    other: u32,
)
    requires
        k.code >= 0,
        !k.injected,
        k.msg == 0x101 || k.msg == 0x105,
        !(0xA0 <= k.vk % 0x1_0000 <= 0xA5 || k.vk % 0x1_0000 == 0x5B || k.vk % 0x1_0000 == 0x5C),
    ensures
        s.swallowed@.contains(k.vk) ==> s.step(k, table, watched) == HookStep::Swallow,
        !s.swallowed@.contains(k.vk) ==> s.step(k, table, watched) == HookStep::Pass,
        !s.held_back_after(k).contains(k.vk),
        other != k.vk ==> (s.held_back_after(k).contains(other) <==> s.swallowed@.contains(other)),
        s.mods_after(k) == s.mods,
{
    modifier_keys_by_code(k.vk);
}

/// A call that is not for the hook, a key that was not pressed by hand, and a
/// message that is neither a press nor a release pass and leave no trace.
pub proof fn other_calls_leave_no_trace(
    s: GuardState,
    k: KeyMessage,
    table: Option<&Vec<Chord>>,
    watched: u8,
)
    requires
        k.code < 0 || k.injected || !(k.msg == 0x100 || k.msg == 0x101 || k.msg == 0x104 || k.msg
            == 0x105),
    ensures
        s.step(k, table, watched) == HookStep::Pass,
        s.mods_after(k) == s.mods,
        s.held_back_after(k) == s.held_back(),
{
}

/// The bits of the keys that are down: one for each key, the left one of a pair
/// before the right one, Ctrl, Alt, Shift and Win in this order.
pub proof fn held_keys_have_their_bits(held: HeldKeys)
    ensures
        held.spec_bits() & 1 != 0 <==> held.left_ctrl,
        held.spec_bits() & 2 != 0 <==> held.right_ctrl,
        held.spec_bits() & 4 != 0 <==> held.left_alt,
        held.spec_bits() & 8 != 0 <==> held.right_alt,
        held.spec_bits() & 16 != 0 <==> held.left_shift,
        held.spec_bits() & 32 != 0 <==> held.right_shift,
        held.spec_bits() & 64 != 0 <==> held.left_win,
        held.spec_bits() & 128 != 0 <==> held.right_win,
{
    let a = held_bit(held.left_ctrl, M_LCTRL);
    let b = held_bit(held.right_ctrl, M_RCTRL);
    let c = held_bit(held.left_alt, M_LALT);
    let d = held_bit(held.right_alt, M_RALT);
    let e = held_bit(held.left_shift, M_LSHIFT);
    let f = held_bit(held.right_shift, M_RSHIFT);
    let g = held_bit(held.left_win, M_LWIN);
    let h = held_bit(held.right_win, M_RWIN);
    let all = held.spec_bits();
    assert((all & 1 != 0) == (a != 0) && (all & 2 != 0) == (b != 0) && (all & 4 != 0) == (c != 0)
        && (all & 8 != 0) == (d != 0) && (all & 16 != 0) == (e != 0) && (all & 32 != 0) == (f != 0)
        && (all & 64 != 0) == (g != 0) && (all & 128 != 0) == (h != 0)) by (bit_vector)
        requires
            all == a | b | c | d | e | f | g | h,
            a == 0u8 || a == 1u8,
            b == 0u8 || b == 2u8,
            c == 0u8 || c == 4u8,
            d == 0u8 || d == 8u8,
            e == 0u8 || e == 16u8,
            f == 0u8 || f == 32u8,
            g == 0u8 || g == 64u8,
            h == 0u8 || h == 128u8,
    ;
}

/// What is watched for is both keys of a modifier.
pub proof fn watched_modifier_has_both_keys(kind: WatchedModifier)
    ensures
        kind is Ctrl ==> watched_bits(Some(kind)) == 1 + 2,
        kind is Alt ==> watched_bits(Some(kind)) == 4 + 8,
        kind is Shift ==> watched_bits(Some(kind)) == 16 + 32,
        kind is Win ==> watched_bits(Some(kind)) == 64 + 128,
        watched_bits(None) == 0,
{
}

/// The hook is set anew exactly when there was input within the last three
/// seconds, of which the hook has seen nothing for three seconds or more, when it
/// was never set anew before or not for five seconds, and there is a thread to do
/// it.
pub proof fn silent_hook_is_set_anew(last: u64, now: u64, input: u64, seen: u64, pump: u64)
    ensures
        hook_is_gone(last, now, input, seen, pump) <==> input > 0 && pump > 0 && input + 3000 >= now
            && seen + 3000 <= now && (last == 0 || last + 5000 <= now),
{
}

/// A chord that finds someone to take it is kept with its release: once it is
/// delivered, the release of its key (0x101 or 0x105) by hand is kept from the
/// application; the Windows key is masked exactly where the chord has it. A chord
/// that finds no one leaves nothing behind.
pub proof fn delivered_chord_keeps_its_release(
    s: GuardState,
    after: GuardState,
    chord: Chord,
    k: KeyMessage,
    table: Option<&Vec<Chord>>,
    watched: u8,
    other: u32,
)
    requires
        k.code >= 0,
        !k.injected,
        k.msg == 0x101 || k.msg == 0x105,
        k.vk == chord.vk,
        !(0xA0 <= k.vk % 0x1_0000 <= 0xA5 || k.vk % 0x1_0000 == 0x5B || k.vk % 0x1_0000 == 0x5C),
        after.held_back() == s.held_back_after_delivery(chord, true),
    ensures
        after.step(k, table, watched) == HookStep::Swallow,
        other != chord.vk ==> (after.held_back().contains(other) <==> s.swallowed@.contains(other)),
        GuardState::mask_after_delivery(chord, true) == Some(chord.win),
        GuardState::mask_after_delivery(chord, false) is None,
        s.held_back_after_delivery(chord, false) == s.held_back(),
{
    modifier_keys_by_code(k.vk);
}

} // verus!
