//! The keys that the USB keyboard reports as held, and the reports that a USB action sends.

use vstd::prelude::*;

use crate::actions::usb::{Action, TriggerType};
use crate::buttons::ButtonState;

verus! {

/// The number of key slots in a keyboard report.
pub const KEY_SLOTS: usize = 6;

/// How long a tapped key stays down, in milliseconds.
pub const TAP_MILLIS: u64 = 50;

/// `i` is the first slot of `s` that holds `v`.
pub open spec fn is_first_slot(s: Seq<u8>, v: u8, i: int) -> bool {
    &&& 0 <= i < s.len()
    &&& s[i] == v
    &&& forall|j: int| 0 <= j < i ==> s[j] != v
}

/// The first slot of `s` that holds `v`, or -1 when none does.
pub open spec fn first_slot(s: Seq<u8>, v: u8) -> int {
    if s.contains(v) {
        choose|i: int| is_first_slot(s, v, i)
    } else {
        -1
    }
}

/// The slots after adding `k`: unchanged when `k` is already held or no slot is free,
/// else `k` goes into the first free (zero) slot.
pub open spec fn with_key(s: Seq<u8>, k: u8) -> Seq<u8> {
    if s.contains(k) || !s.contains(0) {
        s
    } else {
        s.update(first_slot(s, 0), k)
    }
}

/// The slots after removing `k`: the first slot that holds it is cleared.
pub open spec fn without_key(s: Seq<u8>, k: u8) -> Seq<u8> {
    if s.contains(k) {
        s.update(first_slot(s, k), 0)
    } else {
        s
    }
}

/// The slots after toggling `k`: removed when held, else added.
pub open spec fn toggled_key(s: Seq<u8>, k: u8) -> Seq<u8> {
    if s.contains(k) {
        without_key(s, k)
    } else {
        with_key(s, k)
    }
}

/// No key other than zero (a free slot) is held in two slots.
pub open spec fn keys_distinct(s: Seq<u8>) -> bool {
    forall|i: int, j: int| 0 <= i < j < s.len() && s[i] != 0 ==> s[i] != s[j]
}

/// One thing to do towards the USB host.
#[derive(Debug, Clone, Copy, PartialEq, Eq)]
pub enum UsbStep {
    /// Send a keyboard report with these key slots.
    Report([u8; 6]),
    /// Wait this many milliseconds.
    Pause(u64),
}

/// `step` sends a report with the key slots `keys`.
pub open spec fn is_report(step: UsbStep, keys: Seq<u8>) -> bool {
    step matches UsbStep::Report(k) && k@ == keys
}

/// The keys held by the USB keyboard.
#[derive(Debug, Clone, Copy, PartialEq, Eq)]
pub struct UsbState {
    active_keys: [u8; 6],
}

impl View for UsbState {
    type V = Seq<u8>;

    closed spec fn view(&self) -> Seq<u8> {
        self.active_keys@
    }
}

proof fn lemma_first_slot(s: Seq<u8>, v: u8, i: int)
    requires
        is_first_slot(s, v, i),
    ensures
        first_slot(s, v) == i,
{
    assert(s.contains(v)) by {
        assert(s[i] == v);
    }
    let f = choose|f: int| is_first_slot(s, v, f);
    assert(is_first_slot(s, v, f));
    if f < i {
        assert(s[f] != v);
    } else if i < f {
        assert(s[i] != v);
    }
}

proof fn lemma_first_slot_below(s: Seq<u8>, v: u8, i: int)
    requires
        0 <= i < s.len(),
        s[i] == v,
    ensures
        exists|f: int| is_first_slot(s, v, f),
    decreases i,
{
    if exists|j: int| 0 <= j < i && s[j] == v {
        let j = choose|j: int| 0 <= j < i && s[j] == v;
        lemma_first_slot_below(s, v, j);
    } else {
        assert(is_first_slot(s, v, i));
    }
}

/// When `v` is held, `first_slot` is the first slot that holds it.
proof fn lemma_first_slot_exists(s: Seq<u8>, v: u8)
    requires
        s.contains(v),
    ensures
        is_first_slot(s, v, first_slot(s, v)),
{
    let i = choose|i: int| 0 <= i < s.len() && s[i] == v;
    lemma_first_slot_below(s, v, i);
}

impl UsbState {
    /// No key held.
    pub fn new() -> (r: Self)
        ensures
            r@ == seq![0u8, 0u8, 0u8, 0u8, 0u8, 0u8],
    {
        UsbState { active_keys: [0; 6] }
    }

    /// The key slots, as a report sends them.
    pub fn active_keys(&self) -> (r: [u8; 6])
        ensures
            r@ == self@,
    {
        self.active_keys
    }

    /// The first slot that holds `v`, if any.
    fn find(&self, v: u8) -> (r: Option<usize>)
        ensures
            r is None ==> !self@.contains(v),
            r matches Some(i) ==> is_first_slot(self@, v, i as int) && first_slot(self@, v) == i,
    {
        let mut i: usize = 0;
        while i < KEY_SLOTS
            invariant
                i <= KEY_SLOTS,
                self@.len() == KEY_SLOTS,
                forall|j: int| 0 <= j < i ==> self@[j] != v,
            decreases KEY_SLOTS - i,
        {
            if self.active_keys[i] == v {
                proof {
                    lemma_first_slot(self@, v, i as int);
                }
                return Some(i);
            }
            i = i + 1;
        }
        assert(!self@.contains(v)) by {
            if self@.contains(v) {
                let j = choose|j: int| 0 <= j < self@.len() && self@[j] == v;
                assert(self@[j] != v);
            }
        }
        None
    }

    /// Whether `keycode` is held.
    pub fn contains(&self, keycode: u8) -> (r: bool)
        ensures
            r == self@.contains(keycode),
    {
        self.find(keycode).is_some()
    }

    /// Holds `keycode` in the first free slot, unless it is held already or no slot is free.
    pub fn add_key(&mut self, keycode: u8)
        ensures
            final(self)@ == with_key(old(self)@, keycode),
    {
        if self.contains(keycode) {
            return;
        }
        match self.find(0) {
            Some(i) => {
                self.active_keys[i] = keycode;
            },
            None => {},
        }
    }

    /// Clears the first slot that holds `keycode`, if any.
    pub fn remove_key(&mut self, keycode: u8)
        ensures
            final(self)@ == without_key(old(self)@, keycode),
    {
        match self.find(keycode) {
            Some(i) => {
                self.active_keys[i] = 0;
            },
            None => {},
        }
    }

    /// Releases `keycode` when it is held, else holds it.
    pub fn toggle_key(&mut self, keycode: u8)
        ensures
            final(self)@ == toggled_key(old(self)@, keycode),
    {
        if self.contains(keycode) {
            self.remove_key(keycode);
        } else {
            self.add_key(keycode);
        }
    }

    /// Applies a USB action to a button event and returns what to send: a tap holds the key
    /// for one report, waits, and releases it in a second report; a hold holds or releases
    /// the key with the button; a toggle flips the key on a press. A released tap sends the
    /// unchanged keys once; a released toggle sends nothing.
    pub fn keyboard_action(&mut self, action: Action, state: ButtonState) -> (steps: Vec<UsbStep>)
        ensures
            match (action.trigger, state) {
                (TriggerType::Press, ButtonState::Pressed) => {
                    &&& final(self)@ == without_key(with_key(old(self)@, action.keycode), action.keycode)
                    &&& steps@.len() == 3
                    &&& is_report(steps@[0], with_key(old(self)@, action.keycode))
                    &&& steps@[1] == UsbStep::Pause(TAP_MILLIS)
                    &&& is_report(steps@[2], final(self)@)
                },
                (TriggerType::Press, ButtonState::Released) => {
                    &&& final(self)@ == old(self)@
                    &&& steps@.len() == 1
                    &&& is_report(steps@[0], old(self)@)
                },
                (TriggerType::Hold, ButtonState::Pressed) => {
                    &&& final(self)@ == with_key(old(self)@, action.keycode)
                    &&& steps@.len() == 1
                    &&& is_report(steps@[0], final(self)@)
                },
                (TriggerType::Hold, ButtonState::Released) => {
                    &&& final(self)@ == without_key(old(self)@, action.keycode)
                    &&& steps@.len() == 1
                    &&& is_report(steps@[0], final(self)@)
                },
                (TriggerType::Toggle, ButtonState::Released) => {
                    &&& final(self)@ == old(self)@
                    &&& steps@.len() == 0
                },
                (TriggerType::Toggle, ButtonState::Pressed) => {
                    &&& final(self)@ == toggled_key(old(self)@, action.keycode)
                    &&& steps@.len() == 1
                    &&& is_report(steps@[0], final(self)@)
                },
            },
    {
        let mut steps: Vec<UsbStep> = Vec::new();
        match (action.trigger, state) {
            (TriggerType::Press, ButtonState::Pressed) => {
                self.add_key(action.keycode);
                steps.push(UsbStep::Report(self.active_keys));
                steps.push(UsbStep::Pause(TAP_MILLIS));
                self.remove_key(action.keycode);
                steps.push(UsbStep::Report(self.active_keys));
                return steps;
            },
            (TriggerType::Press, ButtonState::Released) => {},
            (TriggerType::Hold, ButtonState::Pressed) => self.add_key(action.keycode),
            (TriggerType::Hold, ButtonState::Released) => self.remove_key(action.keycode),
            (TriggerType::Toggle, ButtonState::Released) => return steps,
            (TriggerType::Toggle, ButtonState::Pressed) => self.toggle_key(action.keycode),
        }
        steps.push(UsbStep::Report(self.active_keys));
        steps
    }
}

/// Adding, removing and toggling a key keep every held key in one slot only.
pub proof fn lemma_key_changes_keep_keys_distinct(s: Seq<u8>, k: u8)
    requires
        keys_distinct(s),
    ensures
        keys_distinct(with_key(s, k)),
        keys_distinct(without_key(s, k)),
        keys_distinct(toggled_key(s, k)),
{
    if !s.contains(k) && s.contains(0) {
        let f = first_slot(s, 0);
        lemma_first_slot_exists(s, 0);
        let t = with_key(s, k);
        assert forall|i: int, j: int| 0 <= i < j < t.len() && t[i] != 0 implies t[i] != t[j] by {
            if i == f {
                assert(t[j] == s[j]);
                assert(s[j] != k) by {
                    if s[j] == k {
                        assert(s.contains(k));
                    }
                }
            } else if j == f {
                assert(t[i] == s[i]);
                assert(s[i] != k) by {
                    if s[i] == k {
                        assert(s.contains(k));
                    }
                }
            }
        }
    }
    if s.contains(k) {
        let f = first_slot(s, k);
        lemma_first_slot_exists(s, k);
    }
}

/// Tapping a key that is not held and is not zero leaves the keys as they were: the release
/// clears the slot that the press filled.
pub proof fn lemma_tap_restores_keys(s: Seq<u8>, k: u8)
    requires
        k != 0,
        !s.contains(k),
    ensures
        without_key(with_key(s, k), k) == s,
{
    if s.contains(0) {
        let f = first_slot(s, 0);
        lemma_first_slot_exists(s, 0);
        let t = with_key(s, k);
        assert(is_first_slot(t, k, f)) by {
            assert forall|j: int| 0 <= j < f implies t[j] != k by {
                assert(t[j] == s[j]);
                if s[j] == k {
                    assert(s.contains(k));
                }
            }
        }
        lemma_first_slot(t, k, f);
        assert(t.update(f, 0) =~= s);
    }
}

/// After a key is added it is held, unless every slot was taken by other keys.
pub proof fn lemma_added_key_is_held(s: Seq<u8>, k: u8)
    requires
        s.contains(k) || s.contains(0),
    ensures
        with_key(s, k).contains(k),
{
    if !s.contains(k) {
        let f = first_slot(s, 0);
        lemma_first_slot_exists(s, 0);
        assert(with_key(s, k)[f] == k);
    }
}

/// After a key other than zero is removed it is no longer held, when no key was held twice.
pub proof fn lemma_removed_key_is_released(s: Seq<u8>, k: u8)
    requires
        keys_distinct(s),
        k != 0,
    ensures
        !without_key(s, k).contains(k),
{
    if s.contains(k) {
        let f = first_slot(s, k);
        lemma_first_slot_exists(s, k);
        let t = without_key(s, k);
        if t.contains(k) {
            let j = choose|j: int| 0 <= j < t.len() && t[j] == k;
            assert(j != f);
            if j < f {
                assert(s[j] != k);
            } else {
                assert(s[f] != 0 && s[f] == s[j]);
            }
        }
    }
}

/// Toggling a key other than zero flips whether it is held, when no key was held twice and
/// there is room for it.
pub proof fn lemma_toggle_flips_key(s: Seq<u8>, k: u8)
    requires
        keys_distinct(s),
        k != 0,
        s.contains(k) || s.contains(0),
    ensures
        toggled_key(s, k).contains(k) == !s.contains(k),
{
    if s.contains(k) {
        lemma_removed_key_is_released(s, k);
    } else {
        lemma_added_key_is_held(s, k);
    }
}

/// A toggle changes only the toggled key. When `k` is held, the first slot holding it is
/// cleared and every other slot keeps its key; when it is not, at most one free slot takes
/// `k` and every other slot keeps its key.
pub proof fn lemma_toggle_changes_only_its_key(s: Seq<u8>, k: u8)
    ensures
        toggled_key(s, k).len() == s.len(),
        s.contains(k) ==> toggled_key(s, k) == without_key(s, k),
        !s.contains(k) ==> toggled_key(s, k) == with_key(s, k),
        forall|j: int| 0 <= j < s.len() && s[j] != k && s[j] != 0 ==> toggled_key(s, k)[j] == s[j],
        s.contains(k) ==> forall|j: int| 0 <= j < s.len() && s[j] != k ==> toggled_key(s, k)[j] == s[j],
        s.contains(k) ==> exists|f: int|
            0 <= f < s.len() && s[f] == k && toggled_key(s, k)[f] == 0 && forall|j: int|
                0 <= j < s.len() && j != f ==> toggled_key(s, k)[j] == s[j],
        !s.contains(k) ==> forall|j: int|
            0 <= j < s.len() ==> toggled_key(s, k)[j] == s[j] || (s[j] == 0 && toggled_key(s, k)[j]
                == k),
{
    if s.contains(k) {
        lemma_first_slot_exists(s, k);
        let f = first_slot(s, k);
        assert(toggled_key(s, k)[f] == 0);
    } else if s.contains(0) {
        lemma_first_slot_exists(s, 0);
    }
}

/// Adding a key that is not held fills the first free slot and nothing else; removing a key
/// clears the first slot that holds it and nothing else.
pub proof fn lemma_key_changes_touch_one_slot(s: Seq<u8>, k: u8)
    ensures
        with_key(s, k).len() == s.len(),
        without_key(s, k).len() == s.len(),
        forall|j: int| 0 <= j < s.len() && s[j] != 0 ==> with_key(s, k)[j] == s[j],
        forall|j: int| 0 <= j < s.len() && s[j] != k ==> without_key(s, k)[j] == s[j],
        !s.contains(k) && s.contains(0) ==> exists|f: int|
            0 <= f < s.len() && s[f] == 0 && with_key(s, k)[f] == k && (forall|j: int|
                0 <= j < f ==> s[j] != 0) && forall|j: int| 0 <= j < s.len() && j != f ==> with_key(s, k)[j] == s[j],
        s.contains(k) ==> exists|f: int|
            0 <= f < s.len() && s[f] == k && without_key(s, k)[f] == 0 && (forall|j: int|
                0 <= j < f ==> s[j] != k) && forall|j: int| 0 <= j < s.len() && j != f ==> without_key(s, k)[j] == s[j],
{
    if s.contains(k) {
        lemma_first_slot_exists(s, k);
        let f = first_slot(s, k);
        assert(without_key(s, k)[f] == 0);
    }
    if !s.contains(k) && s.contains(0) {
        lemma_first_slot_exists(s, 0);
        let f = first_slot(s, 0);
        assert(with_key(s, k)[f] == k);
    }
}

/// The zero key code stands for a free slot: adding or removing it changes nothing.
pub proof fn lemma_zero_key_changes_nothing(s: Seq<u8>)
    ensures
        with_key(s, 0) == s,
        without_key(s, 0) == s,
{
    if s.contains(0) {
        let f = first_slot(s, 0);
        lemma_first_slot_exists(s, 0);
        assert(s.update(f, 0) =~= s);
    }
}

} // verus!
