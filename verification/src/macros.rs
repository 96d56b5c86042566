use vstd::prelude::*;

use crate::Error;
use crate::keycode::KeyCode;
use crate::mode::Mode;
use crate::report::Report;

verus! {

/// How often the device replays a macro once triggered.
#[derive(Clone, Copy, Debug, PartialEq, Eq, Structural)]
pub enum Repetition {
    UntilNextKeyPressed,
    WhilePressed,
}

/// Whether a macro event releases or presses its key.
#[derive(Clone, Copy, Debug, PartialEq, Eq, Structural)]
pub enum KeyPress {
    Up,
    Down,
}

impl Repetition {
    /// On-wire value of this repetition policy.
    pub open spec fn spec_value(self) -> u16 {
        match self {
            Repetition::UntilNextKeyPressed => 0x0000,
            Repetition::WhilePressed => 0xFFFF,
        }
    }

    #[verifier::when_used_as_spec(spec_value)]
    pub fn value(self) -> (v: u16)
        ensures
            v == self.spec_value(),
    {
        match self {
            Repetition::UntilNextKeyPressed => 0x0000,
            Repetition::WhilePressed => 0xFFFF,
        }
    }

    /// The two big-endian bytes that open macro packet 1.
    pub open spec fn spec_bytes(self) -> Seq<u8> {
        seq![(self.spec_value() >> 8) as u8, (self.spec_value() & 0xff) as u8]
    }

    pub fn as_bytes(&self) -> (r: [u8; 2])
        ensures
            r@ == self.spec_bytes(),
    {
        let v = self.value();
        let r: [u8; 2] = [(v >> 8) as u8, (v & 0xff) as u8];
        proof {
            assert(r@ =~= self.spec_bytes());
        }
        r
    }
}

impl KeyPress {
    /// On-wire value of this press state: bit 15 set means down.
    pub open spec fn spec_value(self) -> u16 {
        match self {
            KeyPress::Up => 0x0000,
            KeyPress::Down => 0x8000,
        }
    }

    #[verifier::when_used_as_spec(spec_value)]
    pub fn value(self) -> (v: u16)
        ensures
            v == self.spec_value(),
    {
        match self {
            KeyPress::Up => 0x0000,
            KeyPress::Down => 0x8000,
        }
    }
}

/// One timed key event of a macro: press or release of a key after a
/// delay counted in units of 10 ms.
///
/// The delay is a 15-bit quantity: bit 15 of the on-wire pair carries
/// the press state, so a delay can reach at most `0x7FFF` units.
#[derive(Clone, Copy, Debug, PartialEq, Eq, Structural)]
pub struct MacroData {
    pub key_press: KeyPress,
    pub delay: u16,
    pub key_code: KeyCode,
}

impl MacroData {
    /// The event's three on-wire bytes: the delay's high byte with the
    /// press bit folded into bit 7, the delay's low byte, then the key
    /// code.
    pub open spec fn spec_bytes(self) -> Seq<u8> {
        seq![
            ((self.delay >> 8) as u8) | ((self.key_press.spec_value() >> 8) as u8),
            self.delay as u8,
            self.key_code.spec_value(),
        ]
    }

    pub fn as_bytes(&self) -> (r: [u8; 3])
        requires
            self.delay < 0x8000,
        ensures
            r@ == self.spec_bytes(),
    {
        let r: [u8; 3] = [
            ((self.delay >> 8) as u8) | ((self.key_press.value() >> 8) as u8),
            self.delay as u8,
            self.key_code.value(),
        ];
        proof {
            assert(r@ =~= self.spec_bytes());
        }
        r
    }
}

/// A repetition policy plus an ordered sequence of at most 240 timed
/// key events, to be packed into the three fixed-size macro packets.
///
/// The cap of 240 events is enforced when an event is inserted, not
/// when the macro is encoded: the three packets could hold a few more,
/// and 240 is the deliberate safety margin under that capacity.
#[derive(Clone, Debug, PartialEq, Eq)]
pub struct Macro {
    pub repetition: Repetition,
    pub data: Vec<MacroData>,
}

/// The concatenated on-wire bytes of events `[from, to)`, three bytes
/// per event, in order.
pub open spec fn spec_events_bytes(events: Seq<MacroData>, from: int, to: int) -> Seq<u8>
    decreases to - from,
{
    if from >= to {
        Seq::empty()
    } else {
        spec_events_bytes(events, from, to - 1) + events[to - 1].spec_bytes()
    }
}

/// Events encode to exactly three bytes each.
pub proof fn lemma_events_bytes_len(events: Seq<MacroData>, from: int, to: int)
    requires
        from <= to,
    ensures
        spec_events_bytes(events, from, to).len() == 3 * (to - from),
    decreases to - from,
{
    if from < to {
        lemma_events_bytes_len(events, from, to - 1);
    }
}

/// Within the encoding of events `[from, to)`, event `j` occupies
/// exactly the three bytes starting at `3 * (j - from)`: events sit
/// side by side and none is torn apart.
pub proof fn lemma_events_bytes_at(events: Seq<MacroData>, from: int, to: int, j: int)
    requires
        from <= j < to,
    ensures
        spec_events_bytes(events, from, to).subrange(3 * (j - from), 3 * (j - from) + 3)
            == events[j].spec_bytes(),
    decreases to - from,
{
    lemma_events_bytes_len(events, from, to);
    lemma_events_bytes_len(events, from, to - 1);
    if j == to - 1 {
        assert(spec_events_bytes(events, from, to).subrange(3 * (j - from), 3 * (j - from) + 3)
            =~= events[j].spec_bytes());
    } else {
        lemma_events_bytes_at(events, from, to - 1, j);
        assert(spec_events_bytes(events, from, to).subrange(3 * (j - from), 3 * (j - from) + 3)
            =~= spec_events_bytes(events, from, to - 1).subrange(
            3 * (j - from),
            3 * (j - from) + 3,
        ));
    }
}

impl Macro {
    /// Every event's delay fits in its 15 bits.
    pub open spec fn spec_events_valid(self) -> bool {
        forall|i: int| 0 <= i < self.data@.len() ==> self.data@[i].delay < 0x8000
    }

    /// A well-formed macro: within the 240-event cap, with valid
    /// delays.
    pub open spec fn spec_wf(self) -> bool {
        self.data@.len() <= 240 && self.spec_events_valid()
    }

    /// Appends one event, unless the macro already holds its maximum
    /// of 240: then nothing changes and the insertion fails with
    /// [`Error::InvalidParam`], before any encoding is attempted.
    pub fn add_macro_data(&mut self, macro_data: MacroData) -> (r: Result<(), Error>)
        ensures
            old(self).data@.len() < 240 ==> r is Ok
                && final(self).data@ == old(self).data@.push(macro_data)
                && final(self).repetition == old(self).repetition,
            old(self).data@.len() >= 240 ==> r == Err::<(), Error>(Error::InvalidParam)
                && *final(self) == *old(self),
    {
        if self.data.len() >= 240 {
            return Err(Error::InvalidParam);
        }
        self.data.push(macro_data);
        Ok(())
    }

    /// Bytes of packet 1: the two repetition bytes, then the first 84
    /// events.  Of its 256 bytes, 254 follow the header, so 84 whole
    /// events fit.
    pub open spec fn spec_packet1(self) -> Seq<u8> {
        let n = self.data@.len() as int;
        self.repetition.spec_bytes() + spec_events_bytes(
            self.data@,
            0,
            if n < 84 {
                n
            } else {
                84
            },
        )
    }

    /// Bytes of packet 2: events 84 up to 169 (85 whole events fit in
    /// 256 bytes), empty while packet 1 suffices.
    pub open spec fn spec_packet2(self) -> Seq<u8> {
        let n = self.data@.len() as int;
        if n <= 84 {
            Seq::empty()
        } else {
            spec_events_bytes(
                self.data@,
                84,
                if n < 169 {
                    n
                } else {
                    169
                },
            )
        }
    }

    /// Bytes of packet 3: events from 169 on, empty while the first
    /// two packets suffice.
    pub open spec fn spec_packet3(self) -> Seq<u8> {
        let n = self.data@.len() as int;
        if n <= 169 {
            Seq::empty()
        } else {
            spec_events_bytes(self.data@, 169, n)
        }
    }

    /// Packs the macro into the three packets the device expects.
    ///
    /// The repetition's two big-endian bytes open packet 1; each event
    /// then contributes its three bytes in order.  A packet that cannot
    /// hold a whole further event is left as it is and the next packet
    /// is started: no event's bytes are ever split across two packets.
    pub fn to_bytes(&self) -> (b: [Vec<u8>; 3])
        requires
            self.spec_wf(),
        ensures
            b[0]@ == self.spec_packet1(),
            b[1]@ == self.spec_packet2(),
            b[2]@ == self.spec_packet3(),
    {
        let mut p1: Vec<u8> = Vec::new();
        let mut p2: Vec<u8> = Vec::new();
        let mut p3: Vec<u8> = Vec::new();

        let rep = self.repetition.as_bytes();
        p1.push(rep[0]);
        p1.push(rep[1]);
        proof {
            assert(p1@ =~= self.repetition.spec_bytes());
        }

        let n = self.data.len();
        let mut i: usize = 0;
        while i < n
            invariant
                n == self.data@.len(),
                n <= 240,
                i <= n,
                self.spec_events_valid(),
                i <= 84 ==> p1@ == self.repetition.spec_bytes() + spec_events_bytes(
                    self.data@,
                    0,
                    i as int,
                ) && p2@ == Seq::<u8>::empty() && p3@ == Seq::<u8>::empty(),
                84 < i ==> p1@ == self.repetition.spec_bytes() + spec_events_bytes(
                    self.data@,
                    0,
                    84,
                ),
                84 < i && i <= 169 ==> p2@ == spec_events_bytes(self.data@, 84, i as int) && p3@
                    == Seq::<u8>::empty(),
                169 < i ==> p2@ == spec_events_bytes(self.data@, 84, 169) && p3@
                    == spec_events_bytes(self.data@, 169, i as int),
            decreases n - i,
        {
            proof {
                if i <= 84 {
                    lemma_events_bytes_len(self.data@, 0, i as int);
                } else if i <= 169 {
                    lemma_events_bytes_len(self.data@, 0, 84);
                    lemma_events_bytes_len(self.data@, 84, i as int);
                } else {
                    lemma_events_bytes_len(self.data@, 0, 84);
                    lemma_events_bytes_len(self.data@, 84, 169);
                    lemma_events_bytes_len(self.data@, 169, i as int);
                }
            }
            let d = self.data[i];
            let eb = d.as_bytes();
            if p1.len() + 3 <= 256 {
                p1.push(eb[0]);
                p1.push(eb[1]);
                p1.push(eb[2]);
                proof {
                    assert(p1@ =~= self.repetition.spec_bytes() + spec_events_bytes(
                        self.data@,
                        0,
                        i + 1,
                    ));
                }
            } else if p2.len() + 3 <= 256 {
                p2.push(eb[0]);
                p2.push(eb[1]);
                p2.push(eb[2]);
                proof {
                    if i == 84 {
                        assert(spec_events_bytes(self.data@, 84, 84) =~= Seq::<u8>::empty());
                    }
                    assert(p2@ =~= spec_events_bytes(self.data@, 84, i + 1));
                }
            } else {
                p3.push(eb[0]);
                p3.push(eb[1]);
                p3.push(eb[2]);
                proof {
                    if i == 169 {
                        assert(spec_events_bytes(self.data@, 169, 169) =~= Seq::<u8>::empty());
                    }
                    assert(p3@ =~= spec_events_bytes(self.data@, 169, i + 1));
                }
            }
            i = i + 1;
        }
        let b = [p1, p2, p3];
        proof {
            assert(b[0]@ =~= self.spec_packet1());
            assert(b[1]@ =~= self.spec_packet2());
            assert(b[2]@ =~= self.spec_packet3());
        }
        b
    }
}

/// The packet-boundary property of the encoder: every packet fits the
/// device's 256-byte frame, and each event's three bytes sit whole and
/// contiguous inside a single packet — event `j` at offset `2 + 3 j` of
/// packet 1 for the first 84 events, then at offset `3 (j - 84)` of
/// packet 2 for the next 85, then at offset `3 (j - 169)` of packet 3.
pub proof fn lemma_packet_boundaries(m: Macro)
    requires
        m.spec_wf(),
    ensures
        m.spec_packet1().len() <= 256,
        m.spec_packet2().len() <= 256,
        m.spec_packet3().len() <= 256,
        forall|j: int|
            0 <= j < m.data@.len() && j < 84 ==> m.spec_packet1().subrange(2 + 3 * j, 2 + 3 * j + 3)
                == m.data@[j].spec_bytes(),
        forall|j: int|
            84 <= j < m.data@.len() && j < 169 ==> m.spec_packet2().subrange(
                3 * (j - 84),
                3 * (j - 84) + 3,
            ) == m.data@[j].spec_bytes(),
        forall|j: int|
            169 <= j < m.data@.len() ==> m.spec_packet3().subrange(
                3 * (j - 169),
                3 * (j - 169) + 3,
            ) == m.data@[j].spec_bytes(),
{
    let n = m.data@.len() as int;
    let c1 = if n < 84 {
        n
    } else {
        84
    };
    let c2 = if n < 169 {
        n
    } else {
        169
    };
    lemma_events_bytes_len(m.data@, 0, c1);
    if n > 84 {
        lemma_events_bytes_len(m.data@, 84, c2);
    }
    if n > 169 {
        lemma_events_bytes_len(m.data@, 169, n);
    }
    assert forall|j: int| 0 <= j < n && j < 84 implies m.spec_packet1().subrange(
        2 + 3 * j,
        2 + 3 * j + 3,
    ) == m.data@[j].spec_bytes() by {
        lemma_events_bytes_at(m.data@, 0, c1, j);
        assert(m.spec_packet1().subrange(2 + 3 * j, 2 + 3 * j + 3) =~= spec_events_bytes(
            m.data@,
            0,
            c1,
        ).subrange(3 * j, 3 * j + 3));
    }
    assert forall|j: int| 84 <= j < n && j < 169 implies m.spec_packet2().subrange(
        3 * (j - 84),
        3 * (j - 84) + 3,
    ) == m.data@[j].spec_bytes() by {
        lemma_events_bytes_at(m.data@, 84, c2, j);
    }
    assert forall|j: int| 169 <= j < n implies m.spec_packet3().subrange(
        3 * (j - 169),
        3 * (j - 169) + 3,
    ) == m.data@[j].spec_bytes() by {
        lemma_events_bytes_at(m.data@, 169, n, j);
    }
}

/// The write-phase report of a macro update: the state the device just
/// reported, re-tagged with the `MacroWrite` opcode and its trailing
/// bytes zeroed.  How the three packed packets themselves are
/// transmitted is not specified by the protocol as known here, so no
/// packet-send report is built.
pub fn macro_write_report(current: &Report) -> (r: Report)
    ensures
        r@ == Report::spec_clear_end(Report::spec_set_mode(current@, Mode::MacroWrite)),
{
    let mut r = *current;
    r.set_mode(Mode::MacroWrite);
    r.clear_end();
    r
}

} // verus!
