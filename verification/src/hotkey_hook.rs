//! Shortcuts that another application has: a keyboard hook sees them first. It
//! is there only while it has something to catch.

use vstd::prelude::*;

use crate::hotkey::HotkeyCombo;
use crate::winapi::{WM_KEYDOWN, WM_SYSKEYDOWN};

verus! {

/// The code under which the hook is called with a key.
pub const HC_ACTION: i32 = 0;

/// The modifiers held while a key goes down.
#[derive(Debug, Clone, Copy, PartialEq, Eq, Structural)]
pub struct HeldModifiers {
    pub ctrl: bool,
    pub alt: bool,
    pub shift: bool,
    pub win: bool,
}

/// A key, with these modifiers and no others, is this shortcut.
pub open spec fn matches_combo(c: HotkeyCombo, vk: u32, held: HeldModifiers) -> bool {
    c.vk == vk && c.ctrl == held.ctrl && c.alt == held.alt && c.shift == held.shift && c.win
        == held.win
}

/// `id` is the number of the first shortcut that a key matches.
pub open spec fn first_match(
    combos: Seq<(i32, HotkeyCombo)>,
    vk: u32,
    held: HeldModifiers,
    id: i32,
) -> bool {
    exists|i: int|
        {
            &&& 0 <= i < combos.len()
            &&& matches_combo((#[trigger] combos[i]).1, vk, held)
            &&& combos[i].0 == id
            &&& forall|j: int| 0 <= j < i ==> !matches_combo((#[trigger] combos[j]).1, vk, held)
        }
}

/// No shortcut is matched by a key.
pub open spec fn no_match(combos: Seq<(i32, HotkeyCombo)>, vk: u32, held: HeldModifiers) -> bool {
    forall|i: int| 0 <= i < combos.len() ==> !matches_combo((#[trigger] combos[i]).1, vk, held)
}

/// The number of the first shortcut that a key matches. The modifiers have to
/// be exactly the shortcut's own.
pub fn match_held(combos: &[(i32, HotkeyCombo)], vk: u32, held: HeldModifiers) -> (r: Option<i32>)
    ensures
        match r {
            Some(id) => first_match(combos@, vk, held, id),
            None => no_match(combos@, vk, held),
        },
{
    let mut i: usize = 0;
    while i < combos.len()
        invariant
            i <= combos.len(),
            forall|j: int| 0 <= j < i ==> !matches_combo((#[trigger] combos@[j]).1, vk, held),
        decreases combos.len() - i,
    {
        let (id, c) = combos[i];
        if c.vk == vk && c.ctrl == held.ctrl && c.alt == held.alt && c.shift == held.shift && c.win
            == held.win {
            assert(matches_combo(combos@[i as int].1, vk, held));
            return Some(id);
        }
        i = i + 1;
    }
    None
}

/// What to do about the hook.
#[derive(Debug, Clone, Copy, PartialEq, Eq, Structural)]
pub enum HookOp {
    Keep,
    /// Set it, and hand what came of that to [`HookState::installed`].
    Install,
    Remove,
}

/// The hook of a thread: whether it is set, and what it catches, under the
/// numbers that the system would report the shortcuts under.
#[derive(Debug, PartialEq, Eq)]
pub struct HookState {
    pub hooked: bool,
    pub combos: Vec<(i32, HotkeyCombo)>,
}

impl HookState {
    /// A hook is never set without something to catch.
    pub open spec fn well_formed(self) -> bool {
        self.hooked ==> self.combos@.len() > 0
    }

    /// No hook.
    pub fn new() -> (r: Self)
        ensures
            !r.hooked,
            r.combos@.len() == 0,
            r.well_formed(),
    {
        Self { hooked: false, combos: Vec::new() }
    }

    /// What replacing what the hook catches asks for.
    pub open spec fn op_for(hooked: bool, count: nat) -> HookOp {
        if count == 0 {
            if hooked {
                HookOp::Remove
            } else {
                HookOp::Keep
            }
        } else if hooked {
            HookOp::Keep
        } else {
            HookOp::Install
        }
    }

    /// The hook looks at a call: a key goes down.
    pub open spec fn looks_at(code: i32, msg: u32) -> bool {
        code == HC_ACTION && (msg == WM_KEYDOWN || msg == WM_SYSKEYDOWN)
    }

    /// Replace what the hook catches. With nothing left to catch the hook goes.
    pub fn set_fallback_combos(&mut self, combos: Vec<(i32, HotkeyCombo)>) -> (r: HookOp)
        ensures
            final(self).combos@ == combos@,
            r == Self::op_for(old(self).hooked, combos@.len()),
            final(self).hooked == (old(self).hooked && combos@.len() > 0),
            final(self).well_formed(),
            r == (if combos@.len() == 0 {
                if old(self).hooked {
                    HookOp::Remove
                } else {
                    HookOp::Keep
                }
            } else if old(self).hooked {
                HookOp::Keep
            } else {
                HookOp::Install
            }),
    {
        self.combos = combos;
        if self.combos.len() == 0 {
            if self.hooked {
                self.hooked = false;
                return HookOp::Remove;
            }
            return HookOp::Keep;
        }
        if self.hooked {
            return HookOp::Keep;
        }
        HookOp::Install
    }

    /// Take up whether the hook could be set. Where it could not, what it was
    /// to catch stays, to be tried again with the next change.
    pub fn installed(&mut self, success: bool)
        requires
            old(self).combos@.len() > 0,
        ensures
            final(self).hooked == (success || old(self).hooked),
            final(self).combos == old(self).combos,
            final(self).well_formed(),
    {
        if success {
            self.hooked = true;
        }
    }

    /// Catch nothing any more.
    pub fn clear(&mut self) -> (r: HookOp)
        ensures
            final(self).combos@.len() == 0,
            !final(self).hooked,
            final(self).well_formed(),
            r == (if old(self).hooked {
                HookOp::Remove
            } else {
                HookOp::Keep
            }),
    {
        self.combos.clear();
        if self.hooked {
            self.hooked = false;
            HookOp::Remove
        } else {
            HookOp::Keep
        }
    }

    /// The number of the shortcut that a key matches.
    pub fn match_combo(&self, vk: u32, held: HeldModifiers) -> (r: Option<i32>)
        ensures
            match r {
                Some(id) => first_match(self.combos@, vk, held, id),
                None => no_match(self.combos@, vk, held),
            },
    {
        match_held(self.combos.as_slice(), vk, held)
    }

    /// What the hook does with a call: a key that goes down and matches a
    /// shortcut is kept from everybody else and reported under that shortcut's
    /// number; everything else passes.
    pub fn on_call(&self, code: i32, msg: u32, vk: u32, held: HeldModifiers) -> (r: Option<i32>)
        ensures
            r is Some <==> Self::looks_at(code, msg) && !no_match(self.combos@, vk, held),
            match r {
                Some(id) => code == HC_ACTION && (msg == WM_KEYDOWN || msg == WM_SYSKEYDOWN)
                    && first_match(self.combos@, vk, held, id),
                None => !(code == HC_ACTION && (msg == WM_KEYDOWN || msg == WM_SYSKEYDOWN))
                    || no_match(self.combos@, vk, held),
            },
    {
        if code == HC_ACTION && (msg == WM_KEYDOWN || msg == WM_SYSKEYDOWN) {
            self.match_combo(vk, held)
        } else {
            None
        }
    }
}

/// A key means one number at most.
pub proof fn first_match_is_one(
    combos: Seq<(i32, HotkeyCombo)>,
    vk: u32,
    held: HeldModifiers,
    a: i32,
    b: i32,
)
    requires
        first_match(combos, vk, held, a),
        first_match(combos, vk, held, b),
    ensures
        a == b,
        !no_match(combos, vk, held),
{
}

/// A key is a shortcut's only with that key's code and exactly the modifiers that
/// the shortcut has: one too many or one too few, and it is not.
pub proof fn shortcut_has_its_own_modifiers(c: HotkeyCombo, vk: u32, held: HeldModifiers)
    ensures
        matches_combo(c, vk, held) <==> c == (HotkeyCombo {
            ctrl: held.ctrl,
            alt: held.alt,
            shift: held.shift,
            win: held.win,
            vk,
        }),
{
}

/// A key is reported under the number of the first shortcut that it is, and under
/// none where it is none.
pub proof fn first_shortcut_is_reported(
    combos: Seq<(i32, HotkeyCombo)>,
    c: HotkeyCombo,
    id: i32,
    i: int,
)
    requires
        0 <= i < combos.len(),
        combos[i].1 == c,
        forall|j: int| 0 <= j < i ==> (#[trigger] combos[j]).1 != c,
    ensures
        ({
            let held = HeldModifiers { ctrl: c.ctrl, alt: c.alt, shift: c.shift, win: c.win };
            &&& first_match(combos, c.vk, held, id) <==> id == combos[i].0
            &&& !no_match(combos, c.vk, held)
        }),
{
    let held = HeldModifiers { ctrl: c.ctrl, alt: c.alt, shift: c.shift, win: c.win };
    assert(matches_combo(combos[i].1, c.vk, held));
    assert forall|j: int| 0 <= j < i implies !matches_combo((#[trigger] combos[j]).1, c.vk, held) by {
        assert(combos[j].1 != c);
    }
}

/// The hook looks at the calls with the code zero in which a key goes down, alone
/// (0x100) or with Alt held (0x104), and at no others.
pub proof fn hook_looks_at_presses(code: i32, msg: u32)
    ensures
        HookState::looks_at(code, msg) <==> code == 0 && (msg == 0x100 || msg == 0x104),
{
}

/// The hook is set when there is first something to catch, taken away when there
/// is nothing any more, and otherwise left as it is: it is then there exactly where
/// there is something to catch.
pub proof fn hook_is_there_while_needed(hooked: bool, count: nat)
    ensures
        HookState::op_for(hooked, count) is Install <==> count > 0 && !hooked,
        HookState::op_for(hooked, count) is Remove <==> count == 0 && hooked,
        HookState::op_for(hooked, count) is Keep <==> (count > 0) == hooked,
{
}

} // verus!
