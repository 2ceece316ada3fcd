//! The pins that the user added, and the fields of the GPIO panel.

use vstd::prelude::*;
use crate::remote::net::RemoteError;
use crate::remote::protocol::{fresh_gpio, GPIOMode, GPIOValue, RemoteGPIO};
use crate::ui::text::{add_failed_message, add_failed_text, added_message, added_text, deleted_message, deleted_text, set_message, set_text};

verus! {

/// Whether the pin chosen for writing can be written.
#[derive(Clone, Copy, Debug, PartialEq, Eq, Structural)]
pub enum WriteTarget {
    /// No pin with that number was added.
    NotAdded,
    /// The pin was added in a mode other than output.
    Unwritable,
    /// The pin was added as an output.
    Writable,
}

/// `k` is the first place in `s` that holds pin `pin`.
pub open spec fn first_with_pin(s: Seq<RemoteGPIO>, pin: u8, k: int) -> bool {
    &&& 0 <= k < s.len()
    &&& s[k].pin == pin
    &&& forall|j: int| 0 <= j < k ==> s[j].pin != pin
}

/// Some entry of `s` holds pin `pin`.
pub open spec fn has_pin(s: Seq<RemoteGPIO>, pin: u8) -> bool {
    exists|k: int| 0 <= k < s.len() && s[k].pin == pin
}

/// The first place in `s` that holds pin `pin`, where there is one.
pub open spec fn first_index(s: Seq<RemoteGPIO>, pin: u8) -> int {
    choose|k: int| first_with_pin(s, pin, k)
}

/// The first entry of `s` that holds pin `pin`, where there is one.
pub open spec fn first_entry(s: Seq<RemoteGPIO>, pin: u8) -> Option<RemoteGPIO> {
    if has_pin(s, pin) { Some(s[first_index(s, pin)]) } else { None }
}

/// Whether pin `pin` can be written, going by the first entry of `s` that
/// holds it.
pub open spec fn write_target(s: Seq<RemoteGPIO>, pin: u8) -> WriteTarget {
    match first_entry(s, pin) {
        Some(g) => if g.mode == GPIOMode::OUTPUT { WriteTarget::Writable } else { WriteTarget::Unwritable },
        None => WriteTarget::NotAdded,
    }
}

/// The mode that the panel shows for pin `pin`: that of its first entry in
/// `s`, or `current` where it has none.
pub open spec fn shown_mode(s: Seq<RemoteGPIO>, pin: u8, current: GPIOMode) -> GPIOMode {
    match first_entry(s, pin) {
        Some(g) => g.mode,
        None => current,
    }
}

/// `s` with every entry that holds pin `target.pin` given `target`'s value.
pub open spec fn written(s: Seq<RemoteGPIO>, target: RemoteGPIO) -> Seq<RemoteGPIO> {
    Seq::new(s.len(), |i: int| if s[i].pin == target.pin {
        RemoteGPIO { value: target.value, ..s[i] }
    } else {
        s[i]
    })
}

/// Whether an entry holds a pin other than `pin`.
pub open spec fn other_pin(pin: u8) -> spec_fn(RemoteGPIO) -> bool {
    |g: RemoteGPIO| g.pin != pin
}

/// `s` without the entries that hold pin `pin`, the others in their order.
pub open spec fn without_pin(s: Seq<RemoteGPIO>, pin: u8) -> Seq<RemoteGPIO> {
    s.filter(other_pin(pin))
}

/// Recording a write changes only the entries of the written pin, and of
/// those only the value: every other entry is kept as it was, value
/// included, and the list keeps its length.
pub proof fn law_write_touches_only_its_pin(s: Seq<RemoteGPIO>, target: RemoteGPIO)
    ensures
        written(s, target).len() == s.len(),
        forall|i: int| 0 <= i < s.len() && s[i].pin != target.pin ==> #[trigger] written(s, target)[i] == s[i],
        forall|i: int| 0 <= i < s.len() && s[i].pin == target.pin
            ==> (#[trigger] written(s, target)[i]).pin == target.pin
                && written(s, target)[i].mode == s[i].mode
                && written(s, target)[i].value == target.value,
{
}

/// Only one place is the first one that holds a pin.
pub proof fn lemma_first_unique(s: Seq<RemoteGPIO>, pin: u8, a: int, b: int)
    requires
        first_with_pin(s, pin, a),
        first_with_pin(s, pin, b),
    ensures
        a == b,
{
    if a < b {
        assert(s[a].pin != pin);
    } else if b < a {
        assert(s[b].pin != pin);
    }
}

/// Where some entry holds a pin, a first one does.
pub proof fn lemma_first_exists(s: Seq<RemoteGPIO>, pin: u8)
    requires
        has_pin(s, pin),
    ensures
        first_with_pin(s, pin, first_index(s, pin)),
    decreases s.len(),
{
    let w = choose|k: int| 0 <= k < s.len() && s[k].pin == pin;
    let t = s.drop_last();
    if has_pin(t, pin) {
        lemma_first_exists(t, pin);
        let k = first_index(t, pin);
        assert forall|j: int| 0 <= j < k implies s[j].pin != pin by {
            assert(s[j] == t[j]);
        }
        assert(first_with_pin(s, pin, k));
    } else {
        if w < s.len() - 1 {
            assert(t[w] == s[w]);
        }
        assert forall|j: int| 0 <= j < s.len() - 1 implies s[j].pin != pin by {
            assert(s[j] == t[j]);
        }
        assert(first_with_pin(s, pin, s.len() - 1));
    }
}

/// Appending an entry changes no first entry that was there, and makes the
/// new entry the first of its pin where that pin had none.
pub proof fn lemma_first_entry_push(t: Seq<RemoteGPIO>, y: RemoteGPIO, pin: u8)
    ensures
        first_entry(t.push(y), pin) == match first_entry(t, pin) {
            Some(g) => Some(g),
            None => if y.pin == pin { Some(y) } else { None },
        },
{
    let s = t.push(y);
    if has_pin(t, pin) {
        lemma_first_exists(t, pin);
        let k = first_index(t, pin);
        assert(first_with_pin(s, pin, k));
        assert(has_pin(s, pin));
        lemma_first_exists(s, pin);
        lemma_first_unique(s, pin, k, first_index(s, pin));
    } else if y.pin == pin {
        assert(first_with_pin(s, pin, t.len() as int));
        assert(has_pin(s, pin));
        lemma_first_exists(s, pin);
        lemma_first_unique(s, pin, t.len() as int, first_index(s, pin));
    } else {
        assert forall|k: int| 0 <= k < s.len() implies s[k].pin != pin by {
            if k < t.len() {
                assert(s[k] == t[k]);
            }
        }
    }
}

/// Removing the entries of one pin changes the first entry of no other pin.
pub proof fn lemma_first_entry_without(s: Seq<RemoteGPIO>, pin: u8, other: u8)
    requires
        other != pin,
    ensures
        first_entry(without_pin(s, pin), other) == first_entry(s, other),
    decreases s.len(),
{
    reveal(Seq::filter);
    if s.len() == 0 {
        assert(!has_pin(without_pin(s, pin), other));
        assert(!has_pin(s, other));
    } else {
        let t = s.drop_last();
        let x = s.last();
        lemma_first_entry_without(t, pin, other);
        assert(t.push(x) =~= s);
        lemma_first_entry_push(t, x, other);
        if x.pin != pin {
            assert(without_pin(s, pin) == without_pin(t, pin).push(x));
            lemma_first_entry_push(without_pin(t, pin), x, other);
        } else {
            assert(without_pin(s, pin) == without_pin(t, pin));
        }
    }
}

/// Pin `pin` can be found in `s` exactly where some entry holds it.
pub proof fn lemma_first_entry_some(s: Seq<RemoteGPIO>, pin: u8)
    ensures
        first_entry(s, pin) is Some <==> has_pin(s, pin),
        has_pin(s, pin) ==> first_entry(s, pin)->0.pin == pin,
{
    if has_pin(s, pin) {
        lemma_first_exists(s, pin);
    }
}

/// Once a pin is removed, no entry holds it and it counts as not added;
/// every entry of another pin is still there.
pub proof fn law_deleted_pin_is_gone(s: Seq<RemoteGPIO>, pin: u8)
    ensures
        !has_pin(without_pin(s, pin), pin),
        write_target(without_pin(s, pin), pin) == WriteTarget::NotAdded,
        forall|i: int| 0 <= i < s.len() && s[i].pin != pin ==> without_pin(s, pin).contains(#[trigger] s[i]),
{
    broadcast use vstd::seq_lib::group_filter_ensures;
    let f = without_pin(s, pin);
    assert forall|k: int| 0 <= k < f.len() implies f[k].pin != pin by {
        assert(other_pin(pin)(f[k]));
    }
    assert forall|i: int| 0 <= i < s.len() && s[i].pin != pin implies f.contains(#[trigger] s[i]) by {
        assert(other_pin(pin)(s[i]));
    }
}

/// Removing one pin leaves how every other pin is shown and written as it
/// was.
pub proof fn law_delete_keeps_other_pins(s: Seq<RemoteGPIO>, pin: u8, other: u8, current: GPIOMode)
    requires
        other != pin,
    ensures
        first_entry(without_pin(s, pin), other) == first_entry(s, other),
        write_target(without_pin(s, pin), other) == write_target(s, other),
        shown_mode(without_pin(s, pin), other, current) == shown_mode(s, other, current),
{
    lemma_first_entry_without(s, pin, other);
}

/// Removing a pin twice is removing it once.
pub proof fn law_delete_is_idempotent(s: Seq<RemoteGPIO>, pin: u8)
    ensures
        without_pin(without_pin(s, pin), pin) == without_pin(s, pin),
    decreases s.len(),
{
    reveal(Seq::filter);
    if s.len() > 0 {
        let t = s.drop_last();
        law_delete_is_idempotent(t, pin);
        if s.last().pin != pin {
            assert(without_pin(s, pin) == without_pin(t, pin).push(s.last()));
            assert(without_pin(s, pin).drop_last() =~= without_pin(t, pin));
        } else {
            assert(without_pin(s, pin) == without_pin(t, pin));
        }
    } else {
        assert(without_pin(s, pin) =~= s);
    }
}

/// A pin added while the list holds none of it is then found, in the mode
/// it was added in and with no value: writable exactly when it is an output.
pub proof fn law_added_pin_is_found(s: Seq<RemoteGPIO>, pin: u8, mode: GPIOMode)
    requires
        !has_pin(s, pin),
    ensures
        first_entry(s.push(fresh_gpio(pin, mode)), pin) == Some(fresh_gpio(pin, mode)),
        write_target(s.push(fresh_gpio(pin, mode)), pin) == if mode == GPIOMode::OUTPUT {
            WriteTarget::Writable
        } else {
            WriteTarget::Unwritable
        },
{
    lemma_first_entry_push(s, fresh_gpio(pin, mode), pin);
    lemma_first_entry_some(s, pin);
}

/// Adding an entry for a pin that the list already holds changes nothing
/// the panel shows for that pin: the first entry decides.
pub proof fn law_first_entry_decides(s: Seq<RemoteGPIO>, g: RemoteGPIO, current: GPIOMode)
    requires
        has_pin(s, g.pin),
    ensures
        first_entry(s.push(g), g.pin) == first_entry(s, g.pin),
        write_target(s.push(g), g.pin) == write_target(s, g.pin),
        shown_mode(s.push(g), g.pin, current) == shown_mode(s, g.pin, current),
{
    lemma_first_entry_push(s, g, g.pin);
    lemma_first_entry_some(s, g.pin);
}

/// Writing a value keeps every entry's pin and mode, so how each pin is
/// shown and whether it can be written stay as they were; the first entry
/// of the written pin then holds the value written.
pub proof fn law_write_keeps_targets(s: Seq<RemoteGPIO>, target: RemoteGPIO, pin: u8, current: GPIOMode)
    ensures
        written(s, target).len() == s.len(),
        write_target(written(s, target), pin) == write_target(s, pin),
        shown_mode(written(s, target), pin, current) == shown_mode(s, pin, current),
        has_pin(s, target.pin) ==> first_entry(written(s, target), target.pin)
            == Some(RemoteGPIO { value: target.value, ..first_entry(s, target.pin)->0 }),
{
    let w = written(s, target);
    assert forall|k: int| 0 <= k < s.len() implies w[k].pin == s[k].pin && w[k].mode == s[k].mode by {}
    if has_pin(s, pin) {
        let k = choose|k: int| 0 <= k < s.len() && s[k].pin == pin;
        assert(w[k].pin == pin);
        assert(has_pin(w, pin));
        lemma_first_exists(s, pin);
        lemma_first_exists(w, pin);
        let a = first_index(s, pin);
        let b = first_index(w, pin);
        assert forall|j: int| 0 <= j < b implies s[j].pin != pin by {
            assert(w[j].pin == s[j].pin);
        }
        assert(first_with_pin(s, pin, b));
        lemma_first_unique(s, pin, a, b);
    } else {
        assert forall|k: int| 0 <= k < w.len() implies w[k].pin != pin by {
            assert(w[k].pin == s[k].pin);
        }
    }
    if has_pin(s, target.pin) {
        let k = choose|k: int| 0 <= k < s.len() && s[k].pin == target.pin;
        assert(w[k].pin == target.pin);
        lemma_first_exists(s, target.pin);
        lemma_first_exists(w, target.pin);
        let a = first_index(s, target.pin);
        let b = first_index(w, target.pin);
        assert forall|j: int| 0 <= j < b implies s[j].pin != target.pin by {
            assert(w[j].pin == s[j].pin);
        }
        assert(first_with_pin(s, target.pin, b));
        lemma_first_unique(s, target.pin, a, b);
    }
}

/// The text that the panel shows in place of the Write button, where the
/// pin cannot be written.
pub open spec fn tip_text(t: WriteTarget) -> Option<Seq<char>> {
    match t {
        WriteTarget::NotAdded => Some("Pin not added yet"@),
        WriteTarget::Unwritable => Some("Unwriteable Pin"@),
        WriteTarget::Writable => None,
    }
}

impl WriteTarget {
    /// Why the pin cannot be written, or nothing where it can.
    pub fn tip(&self) -> (t: Option<String>)
        ensures
            t is Some == tip_text(*self) is Some,
            t is Some ==> t->0@ == tip_text(*self)->0,
    {
        match self {
            WriteTarget::NotAdded => Some(String::from_str("Pin not added yet")),
            WriteTarget::Unwritable => Some(String::from_str("Unwriteable Pin")),
            WriteTarget::Writable => None,
        }
    }
}

/// The GPIO panel: the pins added so far, the pin and mode to add next, the
/// pin, mode and value to write next, and whether an add or a write is
/// under way.
#[derive(Debug, Clone)]
pub struct ClientAppGPIO {
    pub list: Vec<RemoteGPIO>,
    pub add_mode: GPIOMode,
    pub add_pin: u8,
    pub add_forwarding: bool,
    pub set_pin: u8,
    pub set_mode: GPIOMode,
    pub set_value: GPIOValue,
    pub set_forwarding: bool,
}

impl ClientAppGPIO {
    /// Every field but the list is as in `other`.
    pub open spec fn same_settings(self, other: ClientAppGPIO) -> bool {
        &&& self.add_mode == other.add_mode
        &&& self.add_pin == other.add_pin
        &&& self.add_forwarding == other.add_forwarding
        &&& self.set_pin == other.set_pin
        &&& self.set_mode == other.set_mode
        &&& self.set_value == other.set_value
        &&& self.set_forwarding == other.set_forwarding
    }

    /// An empty panel: no pin added, pin 0 to add as an input, pin 0 to
    /// write in an unknown mode with no value, nothing under way.
    pub fn new() -> (g: ClientAppGPIO)
        ensures
            g.list@ == Seq::<RemoteGPIO>::empty(),
            g.add_mode == GPIOMode::INPUT,
            g.add_pin == 0,
            !g.add_forwarding,
            g.set_pin == 0,
            g.set_mode == GPIOMode::UNKNOWN,
            g.set_value == GPIOValue::NONE,
            !g.set_forwarding,
    {
        ClientAppGPIO {
            list: Vec::new(),
            add_mode: GPIOMode::INPUT,
            add_pin: 0,
            add_forwarding: false,
            set_pin: 0,
            set_mode: GPIOMode::UNKNOWN,
            set_value: GPIOValue::NONE,
            set_forwarding: false,
        }
    }

    /// Looks up the pin chosen for writing: the panel takes the mode of its
    /// first entry, and says whether it can be written.
    pub fn select_write_target(&mut self) -> (t: WriteTarget)
        ensures
            t == write_target(old(self).list@, old(self).set_pin),
            final(self).set_mode == shown_mode(old(self).list@, old(self).set_pin, old(self).set_mode),
            final(self).list == old(self).list,
            *final(self) == (ClientAppGPIO { set_mode: final(self).set_mode, ..*old(self) }),
            t == WriteTarget::NotAdded <==> !has_pin(old(self).list@, old(self).set_pin),
            t == WriteTarget::NotAdded ==> final(self).set_mode == old(self).set_mode,
            t != WriteTarget::NotAdded ==> exists|k: int|
                first_with_pin(old(self).list@, old(self).set_pin, k)
                && #[trigger] old(self).list@[k].mode == final(self).set_mode
                && (t == WriteTarget::Writable <==> old(self).list@[k].mode == GPIOMode::OUTPUT),
    {
        let pin = self.set_pin;
        let n = self.list.len();
        let mut i: usize = 0;
        while i < n
            invariant
                n == self.list.len(),
                pin == self.set_pin,
                *self == *old(self),
                i <= n,
                forall|j: int| 0 <= j < i ==> self.list@[j].pin != pin,
            decreases n - i,
        {
            if self.list[i].pin == pin {
                let mode = self.list[i].mode;
                proof {
                    let s = self.list@;
                    assert(first_with_pin(s, pin, i as int));
                    assert(has_pin(s, pin));
                    lemma_first_unique(s, pin, i as int, first_index(s, pin));
                }
                self.set_mode = mode;
                return match mode {
                    GPIOMode::OUTPUT => WriteTarget::Writable,
                    _ => WriteTarget::Unwritable,
                };
            }
            i = i + 1;
        }
        WriteTarget::NotAdded
    }

    /// Records that pin `pin` was configured in `mode`: it is appended to
    /// the list, with no value known yet.
    pub fn record_added(&mut self, pin: u8, mode: GPIOMode)
        ensures
            final(self).list@ == old(self).list@.push(fresh_gpio(pin, mode)),
            final(self).list@.len() == old(self).list@.len() + 1,
            final(self).list@.last() == (RemoteGPIO { pin, mode, value: GPIOValue::NONE }),
            forall|i: int| 0 <= i < old(self).list@.len() ==> #[trigger] final(self).list@[i] == old(self).list@[i],
            final(self).same_settings(*old(self)),
    {
        self.list.push(RemoteGPIO::new(pin, mode));
    }

    /// Records that `target`'s value was written: every entry that holds
    /// its pin takes that value.
    pub fn record_written(&mut self, target: RemoteGPIO)
        ensures
            final(self).list@ == written(old(self).list@, target),
            final(self).list@.len() == old(self).list@.len(),
            forall|i: int| 0 <= i < old(self).list@.len() && old(self).list@[i].pin != target.pin
                ==> #[trigger] final(self).list@[i] == old(self).list@[i],
            forall|i: int| 0 <= i < old(self).list@.len() && old(self).list@[i].pin == target.pin
                ==> (#[trigger] final(self).list@[i]).pin == target.pin
                    && final(self).list@[i].mode == old(self).list@[i].mode
                    && final(self).list@[i].value == target.value,
            final(self).same_settings(*old(self)),
    {
        let ghost s = self.list@;
        let n = self.list.len();
        let mut out: Vec<RemoteGPIO> = Vec::new();
        let mut i: usize = 0;
        while i < n
            invariant
                n == self.list.len(),
                s == self.list@,
                i <= n,
                out@ =~= written(s, target).take(i as int),
            decreases n - i,
        {
            let g = self.list[i];
            if g.pin == target.pin {
                out.push(RemoteGPIO { value: target.value, ..g });
            } else {
                out.push(g);
            }
            i = i + 1;
        }
        self.list = out;
    }

    /// Removes every entry that holds pin `pin`, keeping the others in order.
    pub fn remove_pin(&mut self, pin: u8)
        ensures
            final(self).list@ == without_pin(old(self).list@, pin),
            final(self).same_settings(*old(self)),
    {
        let ghost s = self.list@;
        let n = self.list.len();
        let mut out: Vec<RemoteGPIO> = Vec::new();
        let mut i: usize = 0;
        while i < n
            invariant
                n == self.list.len(),
                s == self.list@,
                i <= n,
                out@ == s.take(i as int).filter(other_pin(pin)),
            decreases n - i,
        {
            let g = self.list[i];
            proof {
                reveal(Seq::filter);
                assert(s.take(i as int + 1).drop_last() =~= s.take(i as int));
                assert(s.take(i as int + 1).last() == g);
            }
            if g.pin != pin {
                out.push(g);
            }
            i = i + 1;
        }
        assert(s.take(n as int) =~= s);
        self.list = out;
    }

    /// Takes in the server's answer to configuring pin `pin` in `mode`: on
    /// success the pin joins the list and a note says so; on failure the
    /// list stays as it was and the error says why.
    pub fn finish_add(&mut self, pin: u8, mode: GPIOMode, result: Result<(), RemoteError>) -> (info: Result<Option<String>, String>)
        ensures
            result is Ok ==> final(self).list@ == old(self).list@.push(fresh_gpio(pin, mode))
                && info is Ok && info->Ok_0 is Some && info->Ok_0->0@ == added_text(pin),
            result is Err ==> final(self).list == old(self).list
                && info is Err && info->Err_0@ == add_failed_text(result->Err_0@.message()),
            final(self).same_settings(*old(self)),
    {
        match result {
            Ok(()) => {
                self.record_added(pin, mode);
                Ok(Some(added_message(pin)))
            },
            Err(mut err) => {
                let reason = err.unwrap();
                Err(add_failed_message(reason.as_str()))
            },
        }
    }

    /// Takes in the server's answer to writing `target`: on success the list takes the value and a note says so;
    /// on failure the list stays as it was and the error's message is shown.
    pub fn finish_set(&mut self, target: RemoteGPIO, result: Result<(), RemoteError>) -> (info: Result<Option<String>, String>)
        ensures
            result is Ok ==> final(self).list@ == written(old(self).list@, target),
            result is Ok ==> final(self).list@.len() == old(self).list@.len(),
            result is Ok ==> forall|i: int| 0 <= i < old(self).list@.len() && old(self).list@[i].pin != target.pin
                ==> #[trigger] final(self).list@[i] == old(self).list@[i],
            result is Ok ==> forall|i: int| 0 <= i < old(self).list@.len() && old(self).list@[i].pin == target.pin
                ==> (#[trigger] final(self).list@[i]).pin == target.pin
                    && final(self).list@[i].mode == old(self).list@[i].mode
                    && final(self).list@[i].value == target.value,
            result is Ok ==> info is Ok && info->Ok_0 is Some && info->Ok_0->0@ == set_text(target.pin, target.value),
            result is Err ==> final(self).list == old(self).list
                && info is Err && info->Err_0@ == result->Err_0@.message(),
            final(self).same_settings(*old(self)),
    {
        match result {
            Ok(()) => {
                self.record_written(target);
                Ok(Some(set_message(target.pin, target.value)))
            },
            Err(mut err) => Err(err.unwrap()),
        }
    }

    /// Removes pin `pin` from the list and returns the note that says so.
    pub fn delete_pin(&mut self, pin: u8) -> (note: String)
        ensures
            final(self).list@ == without_pin(old(self).list@, pin),
            note@ == deleted_text(pin),
            final(self).same_settings(*old(self)),
    {
        self.remove_pin(pin);
        deleted_message(pin)
    }
}

} // verus!
