//! Bounded, ordered browsing of one table's entries.
//!
//! A browse session walks one table inside the shared read-only snapshot.
//! The engine's cursor is driven from outside: the session asks for entries
//! one at a time while it wants more, and it stops asking after a fixed
//! display window, so entries beyond the window are never touched. Each
//! accepted entry is rendered as a pair of hexadecimal strings for display.
use vstd::prelude::*;
use crate::codec::{encode_hex, hex_bytes, hex_of, lemma_hex_round_trip};
use crate::errors::BrowseError;

verus! {

/// How many entries of a table a browse session shows: the fixed display
/// window. Entries past this prefix are never requested from the engine.
pub const DISPLAY_WINDOW: usize = 20;

/// Byte-lexicographic order on raw keys: a proper prefix comes first, and
/// otherwise the first differing byte decides.
pub open spec fn lex_le(a: Seq<u8>, b: Seq<u8>) -> bool
    decreases a.len(),
{
    if a.len() == 0 {
        true
    } else if b.len() == 0 {
        false
    } else if a[0] < b[0] {
        true
    } else if a[0] > b[0] {
        false
    } else {
        lex_le(a.drop_first(), b.drop_first())
    }
}

/// The keys of the entries are in non-decreasing byte-lexicographic order.
pub open spec fn sorted_by_key(entries: Seq<(Seq<u8>, Seq<u8>)>) -> bool {
    forall|i: int, j: int|
        0 <= i < j < entries.len() ==> lex_le(#[trigger] entries[i].0, #[trigger] entries[j].0)
}

/// What the engine's cursor reported when asked to advance.
#[derive(Debug)]
pub enum CursorEvent {
    /// The next entry, as raw key and value bytes.
    Entry(Vec<u8>, Vec<u8>),
    /// The table has no further entries.
    End,
    /// The engine failed to advance: malformed page data or a read fault.
    Fault,
}

/// One browse session over one table: collects at most a window of entries,
/// rendered as hexadecimal text, in the order the cursor yields them.
pub struct Browser {
    entries: Vec<(String, String)>,
    at_end: bool,
    raw: Ghost<Seq<(Seq<u8>, Seq<u8>)>>,
}

impl Browser {
    /// The raw byte entries accepted so far, in arrival order.
    pub closed spec fn raw_entries(&self) -> Seq<(Seq<u8>, Seq<u8>)> {
        self.raw@
    }

    /// Whether the cursor reported the end of the table or a fault.
    pub closed spec fn ended(&self) -> bool {
        self.at_end
    }

    /// A session asks for another entry only while the table is not known to
    /// be exhausted and the display window is not yet full.
    pub open spec fn wants_more(&self) -> bool {
        !self.ended() && self.raw_entries().len() < DISPLAY_WINDOW
    }

    /// The session's invariant: one rendered pair per accepted raw entry,
    /// each side the hexadecimal rendering of its bytes, never more than the
    /// display window.
    pub closed spec fn wf(&self) -> bool {
        &&& self.entries@.len() == self.raw@.len()
        &&& self.raw@.len() <= DISPLAY_WINDOW
        &&& forall|i: int|
            0 <= i < self.raw@.len() ==> (#[trigger] self.entries@[i]).0@ == hex_of(
                self.raw@[i].0,
            ) && self.entries@[i].1@ == hex_of(self.raw@[i].1)
    }

    /// A fresh session, positioned before the first entry of its table.
    pub fn new() -> (b: Browser)
        ensures
            b.wf(),
            b.raw_entries() == Seq::<(Seq<u8>, Seq<u8>)>::empty(),
            !b.ended(),
    {
        Browser { entries: Vec::new(), at_end: false, raw: Ghost(Seq::empty()) }
    }

    /// Whether the driver should ask the cursor for another entry.
    pub fn wants_next(&self) -> (r: bool)
        requires
            self.wf(),
        ensures
            r == self.wants_more(),
    {
        !self.at_end && self.entries.len() < DISPLAY_WINDOW
    }

    /// Feeds the session what the cursor reported. An entry is rendered and
    /// kept and the answer says whether to advance again; the end of the
    /// table closes the session; a fault closes it with a cursor error.
    pub fn step(&mut self, event: CursorEvent) -> (r: Result<bool, BrowseError>)
        requires
            old(self).wf(),
            old(self).wants_more(),
        ensures
            final(self).wf(),
            event matches CursorEvent::Entry(key, value) ==> {
                &&& final(self).raw_entries() == old(self).raw_entries().push((key@, value@))
                &&& !final(self).ended()
                &&& r == Ok::<bool, BrowseError>(final(self).wants_more())
            },
            event is End ==> {
                &&& final(self).raw_entries() == old(self).raw_entries()
                &&& final(self).ended()
                &&& r == Ok::<bool, BrowseError>(false)
            },
            event is Fault ==> {
                &&& final(self).raw_entries() == old(self).raw_entries()
                &&& final(self).ended()
                &&& r == Err::<bool, BrowseError>(BrowseError::CursorError)
            },
    {
        match event {
            CursorEvent::Entry(key, value) => {
                let hex_key = encode_hex(&key);
                let hex_value = encode_hex(&value);
                self.entries.push((hex_key, hex_value));
                proof {
                    self.raw@ = self.raw@.push((key@, value@));
                }
                let more = !self.at_end && self.entries.len() < DISPLAY_WINDOW;
                Ok(more)
            },
            CursorEvent::End => {
                self.at_end = true;
                Ok(false)
            },
            CursorEvent::Fault => {
                self.at_end = true;
                Err(BrowseError::CursorError)
            },
        }
    }

    /// Hands over the rendered window: one hexadecimal pair per accepted
    /// entry, in arrival order, never more than the display window.
    pub fn into_entries(self) -> (v: Vec<(String, String)>)
        requires
            self.wf(),
        ensures
            v@.len() == self.raw_entries().len(),
            v@.len() <= DISPLAY_WINDOW,
            forall|i: int|
                0 <= i < v@.len() ==> (#[trigger] v@[i]).0@ == hex_of(self.raw_entries()[i].0)
                    && v@[i].1@ == hex_of(self.raw_entries()[i].1),
    {
        self.entries
    }
}

/// A session never holds more entries than the display window, however many
/// the table has: the count shown never exceeds the window.
pub proof fn lemma_window_bound(b: &Browser)
    requires
        b.wf(),
    ensures
        b.raw_entries().len() <= DISPLAY_WINDOW,
{
}

/// If the cursor fed the session entries with non-decreasing keys — as the
/// engine's key order guarantees — then the rendered window keeps that
/// order: decoding the hexadecimal key of any earlier entry gives bytes
/// that are lexicographically no greater than those of any later one.
pub proof fn lemma_order_preserved(b: &Browser)
    requires
        b.wf(),
        sorted_by_key(b.raw_entries()),
    ensures
        forall|i: int, j: int|
            0 <= i < j < b.raw_entries().len() ==> lex_le(
                hex_bytes(#[trigger] hex_of(b.raw_entries()[i].0)),
                hex_bytes(#[trigger] hex_of(b.raw_entries()[j].0)),
            ),
{
    assert forall|i: int, j: int| 0 <= i < j < b.raw_entries().len() implies lex_le(
        hex_bytes(#[trigger] hex_of(b.raw_entries()[i].0)),
        hex_bytes(#[trigger] hex_of(b.raw_entries()[j].0)),
    ) by {
        lemma_hex_round_trip(b.raw_entries()[i].0);
        lemma_hex_round_trip(b.raw_entries()[j].0);
    }
}

} // verus!
