//! Asking the system for shortcuts, and what comes of it.

use std::collections::HashSet;
use vstd::prelude::*;

use crate::error::{hresult_from_win32, result_code, Win32Error};
use crate::hotkey::display::shown;
use crate::hotkey::HotkeyCombo;
use crate::text::{append, append_decimal, decimal, text_of};
use crate::winapi::{
    ERROR_HOTKEY_ALREADY_REGISTERED, MOD_ALT, MOD_CONTROL, MOD_NOREPEAT, MOD_SHIFT, MOD_WIN,
};

verus! {

broadcast use vstd::std_specs::hash::group_hash_axioms;

/// The flag of a modifier that is held.
pub open spec fn flag(held: bool, bit: u32) -> u32 {
    if held {
        bit
    } else {
        0
    }
}

impl HotkeyCombo {
    /// The modifiers as the system takes them. Holding the key down never
    /// counts as pressing it again.
    pub open spec fn modifier_bits(self) -> u32 {
        MOD_NOREPEAT | flag(self.ctrl, MOD_CONTROL) | flag(self.alt, MOD_ALT) | flag(
            self.shift,
            MOD_SHIFT,
        ) | flag(self.win, MOD_WIN)
    }

    /// The modifiers and the key as the system takes them.
    pub fn to_win32(self) -> (r: (u32, u32))
        ensures
            r.0 == self.modifier_bits(),
            r.1 == self.vk,
    {
        let ctrl: u32 = if self.ctrl {
            MOD_CONTROL
        } else {
            0
        };
        let alt: u32 = if self.alt {
            MOD_ALT
        } else {
            0
        };
        let shift: u32 = if self.shift {
            MOD_SHIFT
        } else {
            0
        };
        let win: u32 = if self.win {
            MOD_WIN
        } else {
            0
        };
        (MOD_NOREPEAT | ctrl | alt | shift | win, self.vk)
    }
}

/// Each modifier has a flag of its own, and the flag against repeats is always
/// set.
pub proof fn modifier_bits_tell_apart(c: HotkeyCombo)
    ensures
        c.modifier_bits() & MOD_NOREPEAT != 0,
        (c.modifier_bits() & MOD_CONTROL != 0) == c.ctrl,
        (c.modifier_bits() & MOD_ALT != 0) == c.alt,
        (c.modifier_bits() & MOD_SHIFT != 0) == c.shift,
        (c.modifier_bits() & MOD_WIN != 0) == c.win,
{
    let a = flag(c.ctrl, MOD_CONTROL);
    let b = flag(c.alt, MOD_ALT);
    let d = flag(c.shift, MOD_SHIFT);
    let e = flag(c.win, MOD_WIN);
    assert((16384u32 | a | b | d | e) & 16384u32 != 0u32 && ((16384u32 | a | b | d | e) & 2u32
        != 0u32) == (a != 0u32) && ((16384u32 | a | b | d | e) & 1u32 != 0u32) == (b != 0u32) && ((
    16384u32 | a | b | d | e) & 4u32 != 0u32) == (d != 0u32) && ((16384u32 | a | b | d | e) & 8u32
        != 0u32) == (e != 0u32)) by (bit_vector)
        requires
            a == 0u32 || a == 2u32,
            b == 0u32 || b == 1u32,
            d == 0u32 || d == 4u32,
            e == 0u32 || e == 8u32,
    ;
}

/// What the system says to a request for a shortcut.
#[derive(Debug, Clone, Copy, PartialEq, Eq, Structural)]
pub enum SystemReply {
    Granted,
    /// Refused, with this result code.
    Refused(i32),
}

/// The numbers that a shortcut may have.
pub open spec fn valid_id(id: i32) -> bool {
    0 <= id <= 0xBFFF
}

/// The complaint about a number that no shortcut may have.
pub open spec fn bad_id_text(id: i32) -> Seq<char> {
    "id хоткея "@ + decimal(id as int) + " вне диапазона 0x0000..=0xBFFF"@
}

fn bad_id(id: i32) -> (r: Win32Error)
    ensures
        r matches Win32Error::InvalidHotkey(t) && t@ == bad_id_text(id),
{
    let mut out: Vec<char> = Vec::new();
    append(&mut out, "id хоткея ");
    append_decimal(&mut out, id);
    append(&mut out, " вне диапазона 0x0000..=0xBFFF");
    assert(out@ =~= bad_id_text(id));
    Win32Error::InvalidHotkey(text_of(&out))
}

/// What to ask the system for: modifiers and key. A number outside the range is
/// refused before anything is asked.
pub fn request(id: i32, combo: HotkeyCombo) -> (r: Result<(u32, u32), Win32Error>)
    ensures
        match r {
            Ok((mods, vk)) => valid_id(id) && mods == combo.modifier_bits() && vk == combo.vk,
            Err(e) => !valid_id(id) && (e matches Win32Error::InvalidHotkey(t) && t@
                == bad_id_text(id)),
        },
{
    if !(id >= 0 && id <= 0xBFFF) {
        return Err(bad_id(id));
    }
    Ok(combo.to_win32())
}

/// A shortcut that the system has granted.
#[derive(Debug, Clone, Copy, PartialEq, Eq, Structural)]
pub struct RegisteredHotkey {
    pub number: i32,
}

/// What came of asking for one shortcut.
pub enum Outcome {
    Granted,
    /// Another application has it.
    Taken,
    /// It could not be asked for, or was refused for another reason.
    Failed,
}

/// What a reply means for a request.
pub open spec fn outcome(id: i32, reply: SystemReply) -> Outcome {
    if !valid_id(id) {
        Outcome::Failed
    } else {
        match reply {
            SystemReply::Granted => Outcome::Granted,
            SystemReply::Refused(code) => if code == result_code(
                ERROR_HOTKEY_ALREADY_REGISTERED,
            ) {
                Outcome::Taken
            } else {
                Outcome::Failed
            },
        }
    }
}

/// The error that a failed request ends in.
pub open spec fn is_failure(e: Win32Error, id: i32, reply: SystemReply) -> bool {
    if !valid_id(id) {
        e matches Win32Error::InvalidHotkey(t) && t@ == bad_id_text(id)
    } else {
        reply matches SystemReply::Refused(code) && e == Win32Error::Win32(code)
    }
}

impl RegisteredHotkey {
    /// Take up the system's reply. A shortcut that another application has is
    /// an error of its own, with the shortcut as text.
    pub fn register(id: i32, combo: HotkeyCombo, reply: SystemReply) -> (r: Result<
        Self,
        Win32Error,
    >)
        ensures
            match outcome(id, reply) {
                Outcome::Granted => r == Ok::<Self, Win32Error>(RegisteredHotkey { number: id }),
                Outcome::Taken => r matches Err(Win32Error::HotkeyConflict(t)) && t@ == shown(
                    combo,
                ),
                Outcome::Failed => r matches Err(e) && is_failure(e, id, reply),
            },
    {
        if !(id >= 0 && id <= 0xBFFF) {
            return Err(bad_id(id));
        }
        match reply {
            SystemReply::Granted => Ok(RegisteredHotkey { number: id }),
            SystemReply::Refused(code) => {
                if code == hresult_from_win32(ERROR_HOTKEY_ALREADY_REGISTERED) {
                    Err(Win32Error::HotkeyConflict(combo.display_string()))
                } else {
                    Err(Win32Error::Win32(code))
                }
            },
        }
    }

    /// The number that a press of the shortcut is reported under.
    pub fn id(&self) -> (r: i32)
        ensures
            r == self.number,
    {
        self.number
    }
}

/// The number of the shortcut that a message reports.
pub fn message_hotkey_id(wparam: usize) -> (r: i32)
    ensures
        r == wparam as i32,
{
    wparam as i32
}

/// A shortcut of a batch that another application has.
#[derive(Debug, PartialEq, Eq)]
pub struct HotkeyRegistrationConflict {
    /// The number that it was asked for under.
    pub id: i32,
    /// The shortcut as text.
    pub combo: String,
}

impl Clone for HotkeyRegistrationConflict {
    fn clone(&self) -> (r: Self)
        ensures
            r == *self,
    {
        HotkeyRegistrationConflict { id: self.id, combo: self.combo.clone() }
    }
}

/// A batch of shortcuts: those that were granted, and those that were taken.
#[derive(Debug, PartialEq, Eq)]
pub struct RegisteredHotkeySet {
    pub hotkeys: Vec<RegisteredHotkey>,
    pub taken: Vec<HotkeyRegistrationConflict>,
}

/// The numbers of the shortcuts that were granted, in order.
pub open spec fn granted(combos: Seq<(i32, HotkeyCombo)>, replies: Seq<SystemReply>) -> Seq<i32>
    decreases combos.len(),
{
    if combos.len() == 0 {
        seq![]
    } else {
        let before = granted(combos.drop_last(), replies);
        let id = combos.last().0;
        if outcome(id, replies[combos.len() - 1]) is Granted {
            before.push(id)
        } else {
            before
        }
    }
}

/// The numbers and texts of the shortcuts that were taken, in order.
pub open spec fn conflicting(combos: Seq<(i32, HotkeyCombo)>, replies: Seq<SystemReply>) -> Seq<
    (i32, Seq<char>),
>
    decreases combos.len(),
{
    if combos.len() == 0 {
        seq![]
    } else {
        let before = conflicting(combos.drop_last(), replies);
        let (id, combo) = combos.last();
        if outcome(id, replies[combos.len() - 1]) is Taken {
            before.push((id, shown(combo)))
        } else {
            before
        }
    }
}

impl RegisteredHotkeySet {
    /// The numbers of the shortcuts that were granted.
    pub open spec fn ids(self) -> Seq<i32> {
        Seq::new(self.hotkeys@.len(), |i: int| self.hotkeys@[i].number)
    }

    /// The numbers and texts of the shortcuts that were taken.
    pub open spec fn taken_texts(self) -> Seq<(i32, Seq<char>)> {
        Seq::new(self.taken@.len(), |i: int| (self.taken@[i].id, self.taken@[i].combo@))
    }

    /// A batch with nothing in it yet.
    pub fn new() -> (r: Self)
        ensures
            r.ids() == Seq::<i32>::empty(),
            r.taken_texts() == Seq::<(i32, Seq<char>)>::empty(),
    {
        let r = Self { hotkeys: Vec::new(), taken: Vec::new() };
        assert(r.ids() =~= Seq::<i32>::empty());
        assert(r.taken_texts() =~= Seq::<(i32, Seq<char>)>::empty());
        r
    }

    /// Take up the reply to one request of the batch. One that is taken does
    /// not stop the others; any other failure does.
    pub fn record(&mut self, id: i32, combo: HotkeyCombo, reply: SystemReply) -> (r: Result<
        (),
        Win32Error,
    >)
        ensures
            match outcome(id, reply) {
                Outcome::Granted => r is Ok && final(self).ids() == old(self).ids().push(id)
                    && final(self).taken_texts() == old(self).taken_texts(),
                Outcome::Taken => r is Ok && final(self).ids() == old(self).ids() && final(self).taken_texts() == old(self).taken_texts().push((id, shown(combo))),
                Outcome::Failed => (r matches Err(e) && is_failure(e, id, reply)) && final(self).ids() == old(self).ids() && final(self).taken_texts() == old(self).taken_texts(),
            },
    {
        match RegisteredHotkey::register(id, combo, reply) {
            Ok(hotkey) => {
                self.hotkeys.push(hotkey);
                assert(self.ids() =~= old(self).ids().push(id));
                assert(self.taken_texts() =~= old(self).taken_texts());
                Ok(())
            },
            Err(e) => match e {
                Win32Error::HotkeyConflict(text) => {
                    self.taken.push(HotkeyRegistrationConflict { id, combo: text });
                    assert(self.ids() =~= old(self).ids());
                    assert(self.taken_texts() =~= old(self).taken_texts().push((id, shown(combo))));
                    Ok(())
                },
                other => Err(other),
            },
        }
    }

    /// Take up the replies to a whole batch. The batch fails with the first
    /// request that failed for another reason than being taken.
    pub fn register_all(combos: &Vec<(i32, HotkeyCombo)>, replies: &Vec<SystemReply>) -> (r: Result<
        Self,
        Win32Error,
    >)
        requires
            combos.len() == replies.len(),
        ensures
            match r {
                Ok(set) => {
                    &&& forall|i: int|
                        0 <= i < combos@.len() ==> !(outcome(
                            (#[trigger] combos@[i]).0,
                            replies@[i],
                        ) is Failed)
                    &&& set.ids() == granted(combos@, replies@)
                    &&& set.taken_texts() == conflicting(combos@, replies@)
                },
                Err(e) => exists|i: int|
                    {
                        &&& 0 <= i < combos@.len()
                        &&& outcome((#[trigger] combos@[i]).0, replies@[i]) is Failed
                        &&& is_failure(e, combos@[i].0, replies@[i])
                        &&& forall|j: int|
                            0 <= j < i ==> !(outcome(
                                (#[trigger] combos@[j]).0,
                                replies@[j],
                            ) is Failed)
                    },
            },
    {
        let mut set = Self::new();
        let mut i: usize = 0;
        assert(combos@.take(0) =~= Seq::<(i32, HotkeyCombo)>::empty());
        while i < combos.len()
            invariant
                i <= combos.len(),
                combos.len() == replies.len(),
                forall|j: int|
                    0 <= j < i ==> !(outcome((#[trigger] combos@[j]).0, replies@[j]) is Failed),
                set.ids() == granted(combos@.take(i as int), replies@),
                set.taken_texts() == conflicting(combos@.take(i as int), replies@),
            decreases combos.len() - i,
        {
            let (id, combo) = combos[i];
            proof {
                let head = combos@.take(i + 1);
                assert(head.drop_last() =~= combos@.take(i as int));
                assert(head.last() == combos@[i as int]);
            }
            if let Err(e) = set.record(id, combo, replies[i]) {
                assert(outcome(combos@[i as int].0, replies@[i as int]) is Failed);
                return Err(e);
            }
            i = i + 1;
        }
        assert(combos@.take(combos@.len() as int) =~= combos@);
        Ok(set)
    }

    /// The shortcuts that were taken.
    pub fn conflicts(&self) -> (r: &Vec<HotkeyRegistrationConflict>)
        ensures
            *r == self.taken,
    {
        &self.taken
    }

    /// How many were granted.
    pub fn registered(&self) -> (r: usize)
        ensures
            r == self.ids().len(),
    {
        self.hotkeys.len()
    }

    /// The numbers of those that were granted.
    pub fn registered_ids(&self) -> (r: HashSet<i32>)
        ensures
            r@ == self.ids().to_set(),
    {
        let mut out: HashSet<i32> = HashSet::new();
        let mut i: usize = 0;
        while i < self.hotkeys.len()
            invariant
                i <= self.hotkeys.len(),
                forall|id: i32|
                    out@.contains(id) <==> exists|j: int|
                        0 <= j < i && #[trigger] self.hotkeys@[j].number == id,
            decreases self.hotkeys.len() - i,
        {
            out.insert(self.hotkeys[i].number);
            i = i + 1;
        }
        proof {
            assert forall|id: i32| out@.contains(id) == self.ids().to_set().contains(id) by {
                if out@.contains(id) {
                    let j = choose|j: int|
                        0 <= j < self.hotkeys@.len() && #[trigger] self.hotkeys@[j].number == id;
                    assert(self.ids()[j] == id);
                }
                if self.ids().to_set().contains(id) {
                    let j = choose|j: int| 0 <= j < self.ids().len() && self.ids()[j] == id;
                    assert(self.hotkeys@[j].number == id);
                }
            }
            assert(out@ =~= self.ids().to_set());
        }
        out
    }

    /// Take the granted shortcuts out of the batch.
    pub fn take_hotkeys(&mut self) -> (r: Vec<RegisteredHotkey>)
        ensures
            r@ == old(self).hotkeys@,
            final(self).hotkeys@.len() == 0,
            final(self).taken == old(self).taken,
    {
        let mut out: Vec<RegisteredHotkey> = Vec::new();
        std::mem::swap(&mut out, &mut self.hotkeys);
        out
    }
}

proof fn split_of_batch(combos: Seq<(i32, HotkeyCombo)>, replies: Seq<SystemReply>)
    requires
        forall|i: int|
            0 <= i < combos.len() ==> !(outcome((#[trigger] combos[i]).0, replies[i]) is Failed),
    ensures
        granted(combos, replies).len() + conflicting(combos, replies).len() == combos.len(),
        forall|i: int|
            0 <= i < combos.len() && outcome((#[trigger] combos[i]).0, replies[i]) is Granted
                ==> granted(combos, replies).contains(combos[i].0),
        forall|i: int|
            0 <= i < combos.len() && outcome((#[trigger] combos[i]).0, replies[i]) is Taken
                ==> conflicting(combos, replies).contains((combos[i].0, shown(combos[i].1))),
    decreases combos.len(),
{
    if combos.len() > 0 {
        let head = combos.drop_last();
        split_of_batch(head, replies);
        let n = combos.len() - 1;
        let g = granted(head, replies);
        let c = conflicting(head, replies);
        assert forall|i: int|
            0 <= i < combos.len() && outcome(
                (#[trigger] combos[i]).0,
                replies[i],
            ) is Granted implies granted(combos, replies).contains(combos[i].0) by {
            if i < n {
                assert(head[i] == combos[i]);
                let k = choose|k: int| 0 <= k < g.len() && g[k] == combos[i].0;
                assert(granted(combos, replies)[k] == combos[i].0);
            } else {
                assert(granted(combos, replies)[g.len() as int] == combos[i].0);
            }
        }
        assert forall|i: int|
            0 <= i < combos.len() && outcome(
                (#[trigger] combos[i]).0,
                replies[i],
            ) is Taken implies conflicting(combos, replies).contains(
            (combos[i].0, shown(combos[i].1)),
        ) by {
            if i < n {
                assert(head[i] == combos[i]);
                let k = choose|k: int|
                    0 <= k < c.len() && c[k] == (combos[i].0, shown(combos[i].1));
                assert(conflicting(combos, replies)[k] == (combos[i].0, shown(combos[i].1)));
            } else {
                assert(conflicting(combos, replies)[c.len() as int] == (
                    combos[i].0,
                    shown(combos[i].1),
                ));
            }
        }
    }
}

/// One shortcut that is taken costs no other: in a batch without other failures
/// every request ends up granted or reported as taken, and in nothing else.
pub proof fn conflicts_stay_apart(combos: Seq<(i32, HotkeyCombo)>, replies: Seq<SystemReply>, i: int)
    requires
        combos.len() == replies.len(),
        forall|j: int|
            0 <= j < combos.len() ==> !(outcome((#[trigger] combos[j]).0, replies[j]) is Failed),
        0 <= i < combos.len(),
    ensures
        granted(combos, replies).len() + conflicting(combos, replies).len() == combos.len(),
        replies[i] is Granted ==> granted(combos, replies).contains(combos[i].0),
        replies[i] is Refused ==> conflicting(combos, replies).contains(
            (combos[i].0, shown(combos[i].1)),
        ),
{
    split_of_batch(combos, replies);
    assert(!(outcome(combos[i].0, replies[i]) is Failed));
}

/// The modifiers as the system takes them: 0x4000 against repeats, and 1 for Alt,
/// 2 for Ctrl, 4 for Shift and 8 for Win, added up.
pub proof fn modifier_bits_add_up(c: HotkeyCombo)
    ensures
        c.modifier_bits() == 0x4000 + (if c.alt {
            1int
        } else {
            0
        }) + (if c.ctrl {
            2int
        } else {
            0
        }) + (if c.shift {
            4int
        } else {
            0
        }) + (if c.win {
            8int
        } else {
            0
        }),
{
    let a = flag(c.ctrl, MOD_CONTROL);
    let b = flag(c.alt, MOD_ALT);
    let d = flag(c.shift, MOD_SHIFT);
    let e = flag(c.win, MOD_WIN);
    assert((16384u32 | a | b | d | e) == 16384 + a + b + d + e) by (bit_vector)
        requires
            a == 0u32 || a == 2u32,
            b == 0u32 || b == 1u32,
            d == 0u32 || d == 4u32,
            e == 0u32 || e == 8u32,
    ;
}

/// What a reply means: a number from 0 to 0xBFFF that is granted is granted; one
/// that is refused with the code 0x80070581 belongs to another application; any
/// other code is a failure, and so is any other number, whatever the reply.
pub proof fn reply_means_one_thing(id: i32, reply: SystemReply)
    ensures
        outcome(id, reply) is Granted <==> 0 <= id < 0xC000 && reply is Granted,
        outcome(id, reply) is Taken <==> 0 <= id < 0xC000 && reply == SystemReply::Refused(
            (0x8007_0581 - 0x1_0000_0000) as i32,
        ),
        outcome(id, reply) is Failed <==> id < 0 || id >= 0xC000 || (reply matches
            SystemReply::Refused(code) && code != 0x8007_0581 - 0x1_0000_0000),
{
    crate::error::result_code_by_number(1409);
}

/// A batch is taken up in order: each request that is granted adds its number at
/// the end of the numbers, each that another application has adds its number and
/// text at the end of the others, and what went before stays as it is.
pub proof fn batch_is_taken_up_in_order(
    combos: Seq<(i32, HotkeyCombo)>,
    replies: Seq<SystemReply>,
    id: i32,
    combo: HotkeyCombo,
)
    requires
        replies.len() > combos.len(),
    ensures
        ({
            let all = combos.push((id, combo));
            let reply = replies[combos.len() as int];
            let valid = 0 <= id < 0xC000;
            let elsewhere = reply == SystemReply::Refused((0x8007_0581 - 0x1_0000_0000) as i32);
            &&& valid && reply is Granted ==> granted(all, replies) == granted(
                combos,
                replies,
            ).push(id) && conflicting(all, replies) == conflicting(combos, replies)
            &&& valid && elsewhere ==> granted(all, replies) == granted(combos, replies)
                && conflicting(all, replies) == conflicting(combos, replies).push(
                (id, shown(combo)),
            )
            &&& !valid || !(reply is Granted || elsewhere) ==> granted(all, replies) == granted(
                combos,
                replies,
            ) && conflicting(all, replies) == conflicting(combos, replies)
        }),
        granted(Seq::empty(), replies) == Seq::<i32>::empty(),
        conflicting(Seq::empty(), replies) == Seq::<(i32, Seq<char>)>::empty(),
{
    let all = combos.push((id, combo));
    assert(all.drop_last() =~= combos);
    reply_means_one_thing(id, replies[combos.len() as int]);
}

/// A failure is the system's own code, as it came, for a number that may be asked
/// for, and a complaint about the number for any other.
pub proof fn failure_is_the_systems_code(e: Win32Error, id: i32, code: i32)
    ensures
        0 <= id < 0xC000 ==> (is_failure(e, id, SystemReply::Refused(code)) <==> e
            == Win32Error::Win32(code)),
        id < 0 || id >= 0xC000 ==> (is_failure(e, id, SystemReply::Refused(code)) <==> (e matches
            Win32Error::InvalidHotkey(t) && t@ == bad_id_text(id))),
{
}

} // verus!
