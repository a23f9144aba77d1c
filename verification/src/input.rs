//! Input events, and decoding the bytes that a terminal sends into them.

use vstd::prelude::*;
use crate::chars::{next_char, spec_next_char, CharStreamError};
use crate::driver::{find, lookup};

verus! {

/// An input event.
#[derive(Debug, Copy, Clone, PartialEq, Eq, Structural)]
pub enum Event {
    /// A character, control characters included.
    Key(char),
    /// A function key, by its number (`F1` is `1`).
    Function(u8),
    Up,
    Down,
    Left,
    Right,
    PageUp,
    PageDown,
    Home,
    End,
    /// The window changed its size.
    Resize,
}

/// How many keys the key table knows by name.
pub const NUM_KEYS: usize = 20;

/// The event that the key in a slot of the key table stands for.
pub open spec fn key_event(slot: int) -> Event {
    if 0 <= slot < 12 {
        Event::Function((slot + 1) as u8)
    } else if slot == 12 {
        Event::Up
    } else if slot == 13 {
        Event::Down
    } else if slot == 14 {
        Event::Left
    } else if slot == 15 {
        Event::Right
    } else if slot == 16 {
        Event::PageUp
    } else if slot == 17 {
        Event::PageDown
    } else if slot == 18 {
        Event::Home
    } else {
        Event::End
    }
}

/// The terminfo variable name of the key in a slot of the key table.
pub open spec fn key_variable(slot: int) -> &'static str {
    if slot == 0 {
        "key_f1"
    } else if slot == 1 {
        "key_f2"
    } else if slot == 2 {
        "key_f3"
    } else if slot == 3 {
        "key_f4"
    } else if slot == 4 {
        "key_f5"
    } else if slot == 5 {
        "key_f6"
    } else if slot == 6 {
        "key_f7"
    } else if slot == 7 {
        "key_f8"
    } else if slot == 8 {
        "key_f9"
    } else if slot == 9 {
        "key_f10"
    } else if slot == 10 {
        "key_f11"
    } else if slot == 11 {
        "key_f12"
    } else if slot == 12 {
        "key_up"
    } else if slot == 13 {
        "key_down"
    } else if slot == 14 {
        "key_left"
    } else if slot == 15 {
        "key_right"
    } else if slot == 16 {
        "key_ppage"
    } else if slot == 17 {
        "key_npage"
    } else if slot == 18 {
        "key_home"
    } else {
        "key_end"
    }
}

/// The terminfo capability name of the key in a slot of the key table.
pub open spec fn key_capname(slot: int) -> &'static str {
    if slot == 0 {
        "kf1"
    } else if slot == 1 {
        "kf2"
    } else if slot == 2 {
        "kf3"
    } else if slot == 3 {
        "kf4"
    } else if slot == 4 {
        "kf5"
    } else if slot == 5 {
        "kf6"
    } else if slot == 6 {
        "kf7"
    } else if slot == 7 {
        "kf8"
    } else if slot == 8 {
        "kf9"
    } else if slot == 9 {
        "kf10"
    } else if slot == 10 {
        "kf11"
    } else if slot == 11 {
        "kf12"
    } else if slot == 12 {
        "kcuu1"
    } else if slot == 13 {
        "kcud1"
    } else if slot == 14 {
        "kcub1"
    } else if slot == 15 {
        "kcuf1"
    } else if slot == 16 {
        "kpp"
    } else if slot == 17 {
        "knp"
    } else if slot == 18 {
        "khome"
    } else {
        "kend"
    }
}

/// The byte sequence that a terminal sends for one key, and the event it
/// stands for.
#[derive(Debug)]
pub struct KeyBinding {
    pub seq: Vec<u8>,
    pub event: Event,
}

/// Whether `prefix` is what `bytes` begins with.
pub open spec fn is_prefix(prefix: Seq<u8>, bytes: Seq<u8>) -> bool {
    prefix.len() <= bytes.len() && bytes.subrange(0, prefix.len() as int) == prefix
}

/// The first binding of a table, from index `from` on, whose byte sequence
/// is not empty and is what `bytes` begins with: its event and the length
/// of its sequence.
pub open spec fn match_key(table: Seq<KeyBinding>, bytes: Seq<u8>, from: int) -> Option<
    (Event, int),
>
    decreases table.len() - from,
{
    if from < 0 || from >= table.len() {
        None
    } else if table[from].seq@.len() > 0 && is_prefix(table[from].seq@, bytes) {
        Some((table[from].event, table[from].seq@.len() as int))
    } else {
        match_key(table, bytes, from + 1)
    }
}

/// The events that a run of input bytes stands for, in the order of
/// arrival: at each point the sequence of a bound key, where the bytes
/// begin with one, else one character. Bytes that are neither make the
/// whole run an error.
pub open spec fn decode(table: Seq<KeyBinding>, bytes: Seq<u8>) -> Result<
    Seq<Event>,
    CharStreamError,
>
    decreases bytes.len(),
{
    if bytes.len() == 0 {
        Ok(Seq::empty())
    } else {
        match match_key(table, bytes, 0) {
            Some((event, n)) => {
                if 0 < n <= bytes.len() {
                    match decode(table, bytes.skip(n)) {
                        Ok(rest) => Ok(seq![event] + rest),
                        Err(e) => Err(e),
                    }
                } else {
                    Err(CharStreamError::NotUtf8)
                }
            },
            None => match spec_next_char(bytes) {
                Some((Ok(c), n)) => {
                    if 0 < n <= bytes.len() {
                        match decode(table, bytes.skip(n)) {
                            Ok(rest) => Ok(seq![Event::Key(c)] + rest),
                            Err(e) => Err(e),
                        }
                    } else {
                        Err(CharStreamError::NotUtf8)
                    }
                },
                Some((Err(e), _)) => Err(e),
                None => Ok(Seq::empty()),
            },
        }
    }
}

/// The bindings that the named string capabilities of a terminal give for
/// the key slots below `upto`: for each key, in the order of the slots, the
/// sequence listed under the key's variable name, else the one under its
/// capability name; a key with neither, or with an empty sequence, has no
/// binding.
pub open spec fn bindings_from(entries: Seq<(String, Vec<u8>)>, upto: int) -> Seq<(Seq<u8>, Event)>
    decreases upto,
{
    if upto <= 0 {
        Seq::empty()
    } else {
        let slot = upto - 1;
        let found = match lookup(entries, key_variable(slot)@) {
            Some(s) => Some(s),
            None => lookup(entries, key_capname(slot)@),
        };
        match found {
            Some(s) => if s.len() > 0 {
                bindings_from(entries, slot).push((s, key_event(slot)))
            } else {
                bindings_from(entries, slot)
            },
            None => bindings_from(entries, slot),
        }
    }
}

/// The bindings of a table as plain values.
pub open spec fn bindings_view(table: Seq<KeyBinding>) -> Seq<(Seq<u8>, Event)> {
    Seq::new(table.len(), |i: int| (table[i].seq@, table[i].event))
}

/// The key table of one terminal: which byte sequences stand for which
/// keys.
#[derive(Debug)]
pub struct KeyTable {
    pub bindings: Vec<KeyBinding>,
}

impl KeyTable {
    /// A table without bindings: every byte is read as part of a character.
    pub fn empty() -> (t: KeyTable)
        ensures
            t.bindings@.len() == 0,
    {
        KeyTable { bindings: Vec::new() }
    }

    /// Builds the table from the named string capabilities of a terminal,
    /// as its terminfo entry lists them.
    pub fn new(entries: &Vec<(String, Vec<u8>)>) -> (t: KeyTable)
        ensures
            bindings_view(t.bindings@) == bindings_from(entries@, NUM_KEYS as int),
    {
        let mut bindings: Vec<KeyBinding> = Vec::new();
        let mut slot: usize = 0;
        while slot < NUM_KEYS
            invariant
                slot <= NUM_KEYS,
                bindings_view(bindings@) == bindings_from(entries@, slot as int),
            decreases NUM_KEYS - slot,
        {
            let found = match find(entries, variable_of_key(slot)) {
                Some(s) => Some(s),
                None => find(entries, capname_of_key(slot)),
            };
            let ghost before = bindings@;
            match found {
                Some(s) => {
                    if s.len() > 0 {
                        let ghost sv = s@;
                        bindings.push(KeyBinding { seq: s, event: event_of_key(slot) });
                        assert(bindings_view(bindings@) =~= bindings_view(before).push(
                            (sv, key_event(slot as int)),
                        ));
                    }
                },
                None => {},
            }
            slot += 1;
        }
        KeyTable { bindings }
    }

    /// Adds a binding at the end of the table.
    pub fn bind(&mut self, seq: Vec<u8>, event: Event)
        ensures
            bindings_view(final(self).bindings@) == bindings_view(old(self).bindings@).push(
                (seq@, event),
            ),
    {
        let ghost before = self.bindings@;
        let ghost sv = seq@;
        self.bindings.push(KeyBinding { seq, event });
        assert(bindings_view(self.bindings@) =~= bindings_view(before).push((sv, event)));
    }

    /// Finds the first binding whose sequence is what the bytes from `pos`
    /// on begin with.
    pub fn match_at(&self, bytes: &Vec<u8>, pos: usize) -> (r: Option<(Event, usize)>)
        requires
            pos <= bytes.len(),
        ensures
            match r {
                Some((event, next)) => {
                    &&& pos < next <= bytes.len()
                    &&& match_key(self.bindings@, bytes@.skip(pos as int), 0) == Some(
                        (event, next - pos),
                    )
                },
                None => match_key(self.bindings@, bytes@.skip(pos as int), 0) is None,
            },
    {
        let ghost rest = bytes@.skip(pos as int);
        let mut i: usize = 0;
        while i < self.bindings.len()
            invariant
                i <= self.bindings.len(),
                pos <= bytes.len(),
                rest == bytes@.skip(pos as int),
                match_key(self.bindings@, rest, 0) == match_key(self.bindings@, rest, i as int),
            decreases self.bindings.len() - i,
        {
            let seq = &self.bindings[i].seq;
            let n = seq.len();
            if n > 0 && n <= bytes.len() - pos {
                let mut k: usize = 0;
                let mut same = true;
                while k < n
                    invariant
                        k <= n,
                        n == seq.len(),
                        n <= bytes.len() - pos,
                        rest == bytes@.skip(pos as int),
                        same == (forall|j: int| 0 <= j < k ==> seq@[j] == rest[j]),
                    decreases n - k,
                {
                    if seq[k] != bytes[pos + k] {
                        same = false;
                        assert(seq@[k as int] != rest[k as int]);
                    }
                    k += 1;
                }
                proof {
                    if same {
                        assert(rest.subrange(0, n as int) =~= seq@);
                    } else {
                        let j = choose|j: int| 0 <= j < n && seq@[j] != rest[j];
                        assert(rest.subrange(0, n as int)[j] == rest[j]);
                    }
                }
                if same {
                    return Some((self.bindings[i].event, pos + n));
                }
            }
            i += 1;
        }
        None
    }

    /// Decodes a run of input bytes into events, in the order of arrival.
    /// Bytes that are neither the sequence of a bound key nor UTF-8 make
    /// the whole run an error.
    pub fn decode(&self, bytes: &Vec<u8>) -> (r: Result<Vec<Event>, CharStreamError>)
        ensures
            match r {
                Ok(events) => decode(self.bindings@, bytes@) == Ok::<
                    Seq<Event>,
                    CharStreamError,
                >(events@),
                Err(e) => decode(self.bindings@, bytes@) == Err::<Seq<Event>, CharStreamError>(e),
            },
    {
        let mut events: Vec<Event> = Vec::new();
        let mut pos: usize = 0;
        assert(bytes@.skip(0) =~= bytes@);
        while pos < bytes.len()
            invariant
                pos <= bytes.len(),
                decode(self.bindings@, bytes@) == match decode(
                    self.bindings@,
                    bytes@.skip(pos as int),
                ) {
                    Ok(rest) => Ok::<Seq<Event>, CharStreamError>(events@ + rest),
                    Err(e) => Err(e),
                },
            decreases bytes.len() - pos,
        {
            let ghost rest = bytes@.skip(pos as int);
            let ghost before = events@;
            let (event, next) = match self.match_at(bytes, pos) {
                Some((event, next)) => (event, next),
                None => match next_char(bytes, pos) {
                    Some((Ok(c), next)) => (Event::Key(c), next),
                    Some((Err(e), _)) => {
                        return Err(e);
                    },
                    None => {
                        return Ok(events);
                    },
                },
            };
            assert(rest.skip(next - pos) =~= bytes@.skip(next as int));
            events.push(event);
            proof {
                match decode(self.bindings@, bytes@.skip(next as int)) {
                    Ok(tail) => {
                        assert(before + (seq![event] + tail) =~= events@ + tail);
                    },
                    Err(_) => {},
                }
            }
            pos = next;
        }
        assert(events@ + Seq::<Event>::empty() =~= events@);
        Ok(events)
    }
}

/// The terminfo variable name of the key in a slot of the key table.
fn variable_of_key(slot: usize) -> (name: &'static str)
    requires
        slot < NUM_KEYS,
    ensures
        name == key_variable(slot as int),
{
    if slot == 0 {
        "key_f1"
    } else if slot == 1 {
        "key_f2"
    } else if slot == 2 {
        "key_f3"
    } else if slot == 3 {
        "key_f4"
    } else if slot == 4 {
        "key_f5"
    } else if slot == 5 {
        "key_f6"
    } else if slot == 6 {
        "key_f7"
    } else if slot == 7 {
        "key_f8"
    } else if slot == 8 {
        "key_f9"
    } else if slot == 9 {
        "key_f10"
    } else if slot == 10 {
        "key_f11"
    } else if slot == 11 {
        "key_f12"
    } else if slot == 12 {
        "key_up"
    } else if slot == 13 {
        "key_down"
    } else if slot == 14 {
        "key_left"
    } else if slot == 15 {
        "key_right"
    } else if slot == 16 {
        "key_ppage"
    } else if slot == 17 {
        "key_npage"
    } else if slot == 18 {
        "key_home"
    } else {
        "key_end"
    }
}

/// The terminfo capability name of the key in a slot of the key table.
fn capname_of_key(slot: usize) -> (name: &'static str)
    requires
        slot < NUM_KEYS,
    ensures
        name == key_capname(slot as int),
{
    if slot == 0 {
        "kf1"
    } else if slot == 1 {
        "kf2"
    } else if slot == 2 {
        "kf3"
    } else if slot == 3 {
        "kf4"
    } else if slot == 4 {
        "kf5"
    } else if slot == 5 {
        "kf6"
    } else if slot == 6 {
        "kf7"
    } else if slot == 7 {
        "kf8"
    } else if slot == 8 {
        "kf9"
    } else if slot == 9 {
        "kf10"
    } else if slot == 10 {
        "kf11"
    } else if slot == 11 {
        "kf12"
    } else if slot == 12 {
        "kcuu1"
    } else if slot == 13 {
        "kcud1"
    } else if slot == 14 {
        "kcub1"
    } else if slot == 15 {
        "kcuf1"
    } else if slot == 16 {
        "kpp"
    } else if slot == 17 {
        "knp"
    } else if slot == 18 {
        "khome"
    } else {
        "kend"
    }
}

/// The event that the key in a slot of the key table stands for.
fn event_of_key(slot: usize) -> (event: Event)
    requires
        slot < NUM_KEYS,
    ensures
        event == key_event(slot as int),
{
    if slot < 12 {
        Event::Function((slot + 1) as u8)
    } else if slot == 12 {
        Event::Up
    } else if slot == 13 {
        Event::Down
    } else if slot == 14 {
        Event::Left
    } else if slot == 15 {
        Event::Right
    } else if slot == 16 {
        Event::PageUp
    } else if slot == 17 {
        Event::PageDown
    } else if slot == 18 {
        Event::Home
    } else {
        Event::End
    }
}

} // verus!
