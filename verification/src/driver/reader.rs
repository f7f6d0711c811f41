//! One whole telemetry snapshot out of pairs of reads. The window block is
//! written mid-tick and its sequence number lands last, so a full read whose
//! number agrees with a second read of the block is whole.

use super::wire::{le16, snapshot_in, u16_at, IDENT_LEN, TEL_BASE, TEL_LEN};
use crate::frame::TelemetrySnapshot;
use vstd::prelude::*;

verus! {

/// Pairs read before a torn window is let through: the window stream drops
/// repeats by number anyway.
pub const READ_TRIES: u8 = 3;

/// One thing for the driver to do.
#[derive(Copy, Clone, Debug, PartialEq, Eq, Structural)]
pub enum ReadAct {
    /// Read the telemetry block and call again with the reply.
    Telemetry,
    /// Read the window block and call again with the reply.
    Window,
    /// The snapshot stands.
    Take(TelemetrySnapshot),
    /// The telemetry reply does not span every field.
    ShortTelemetry,
    /// The window reply is not a whole window block.
    ShortWindow,
}

#[derive(Copy, Clone, Debug, PartialEq, Eq, Structural)]
pub enum ReadPhase {
    /// About to read the telemetry block.
    Start,
    /// The telemetry read is out.
    Telemetry,
    /// The window read is out; the snapshot it is held against.
    Window { snap: TelemetrySnapshot },
    /// Ended with this.
    Ended { act: ReadAct },
}

/// A snapshot being read.
#[derive(Copy, Clone, Debug, PartialEq, Eq, Structural)]
pub struct SnapshotRead {
    /// Pairs that may still be started, the one under way not counted.
    pub left: u8,
    pub phase: ReadPhase,
}

/// The bytes behind a reply.
pub open spec fn heard(reply: Option<&[u8]>) -> Option<Seq<u8>> {
    match reply {
        Some(b) => Some(b@),
        None => None,
    }
}

impl SnapshotRead {
    pub fn new() -> (r: Self)
        ensures
            r == (SnapshotRead { left: (READ_TRIES - 1) as u8, phase: ReadPhase::Start }),
            r.wf(),
    {
        SnapshotRead { left: READ_TRIES - 1, phase: ReadPhase::Start }
    }

    /// An ended read ended with an end.
    pub open spec fn wf(self) -> bool {
        self.phase matches ReadPhase::Ended { act } ==> !(act is Telemetry) && !(act is Window)
    }

    pub open spec fn ended(self, act: ReadAct) -> (SnapshotRead, ReadAct) {
        (SnapshotRead { phase: ReadPhase::Ended { act }, ..self }, act)
    }

    /// One step: the read after a reply, and what it asks for. Without a reply
    /// it asks again. A telemetry reply is judged before the window is read.
    pub open spec fn after(self, reply: Option<Seq<u8>>) -> (SnapshotRead, ReadAct) {
        match (self.phase, reply) {
            (ReadPhase::Start, _) => (
                SnapshotRead { phase: ReadPhase::Telemetry, ..self },
                ReadAct::Telemetry,
            ),
            (ReadPhase::Telemetry, None) => (self, ReadAct::Telemetry),
            (ReadPhase::Telemetry, Some(raw)) => if raw.len() < TEL_LEN {
                self.ended(ReadAct::ShortTelemetry)
            } else {
                (
                    SnapshotRead {
                        phase: ReadPhase::Window { snap: snapshot_in(TEL_BASE, raw) },
                        ..self
                    },
                    ReadAct::Window,
                )
            },
            (ReadPhase::Window { snap }, None) => (self, ReadAct::Window),
            (ReadPhase::Window { snap }, Some(window)) => if window.len() < IDENT_LEN {
                self.ended(ReadAct::ShortWindow)
            } else if le16(window, 10) == snap.agg_seq || self.left == 0 {
                self.ended(ReadAct::Take(snap))
            } else {
                (
                    SnapshotRead { left: (self.left - 1) as u8, phase: ReadPhase::Telemetry },
                    ReadAct::Telemetry,
                )
            },
            (ReadPhase::Ended { act }, _) => (self, act),
        }
    }

    /// Take in the reply to the last read and say what comes next.
    pub fn next(&mut self, reply: Option<&[u8]>) -> (act: ReadAct)
        requires
            old(self).wf(),
        ensures
            (*final(self), act) == old(self).after(heard(reply)),
            final(self).wf(),
    {
        match self.phase {
            ReadPhase::Start => {
                self.phase = ReadPhase::Telemetry;
                ReadAct::Telemetry
            },
            ReadPhase::Telemetry => match reply {
                None => ReadAct::Telemetry,
                Some(raw) => match TelemetrySnapshot::parse(TEL_BASE, raw) {
                    None => self.end(ReadAct::ShortTelemetry),
                    Some(snap) => {
                        self.phase = ReadPhase::Window { snap };
                        ReadAct::Window
                    },
                },
            },
            ReadPhase::Window { snap } => match reply {
                None => ReadAct::Window,
                Some(window) => {
                    let n: usize = window.len();
                    if n < IDENT_LEN as usize {
                        self.end(ReadAct::ShortWindow)
                    } else if u16_at(window, 10) == snap.agg_seq || self.left == 0 {
                        self.end(ReadAct::Take(snap))
                    } else {
                        self.left = self.left - 1;
                        self.phase = ReadPhase::Telemetry;
                        ReadAct::Telemetry
                    }
                },
            },
            ReadPhase::Ended { act } => act,
        }
    }

    fn end(&mut self, act: ReadAct) -> (r: ReadAct)
        ensures
            (*final(self), r) == old(self).ended(act),
    {
        self.phase = ReadPhase::Ended { act };
        act
    }
}

/// Where a read stands after replies to each of its asks, and what it asks for
/// then.
pub open spec fn replied(r: SnapshotRead, replies: Seq<Seq<u8>>) -> (SnapshotRead, ReadAct)
    decreases replies.len(),
{
    if replies.len() == 0 {
        r.after(None)
    } else {
        replied(r, replies.drop_last()).0.after(Some(replies.last()))
    }
}

/// Asks that a read has before it at most, once its replies come.
spec fn asks_left(r: SnapshotRead) -> int {
    match r.phase {
        ReadPhase::Start | ReadPhase::Telemetry => 2 * r.left + 2,
        ReadPhase::Window { snap } => 2 * r.left + 1,
        ReadPhase::Ended { act } => 0,
    }
}

proof fn lemma_asks(replies: Seq<Seq<u8>>)
    ensures
        ({
            let r = SnapshotRead { left: (READ_TRIES - 1) as u8, phase: ReadPhase::Start };
            let (end, act) = replied(r, replies);
            &&& end.wf()
            &&& end.phase != ReadPhase::Start
            &&& end.phase is Ended || asks_left(end) <= 2 * READ_TRIES - replies.len()
            &&& act == end.after(None).1
            &&& act is Take ==> replies.len() >= 2
        }),
    decreases replies.len(),
{
    if replies.len() > 0 {
        lemma_asks(replies.drop_last());
    }
}

/// A read comes to its end within three pairs, whatever the replies hold.
pub proof fn law_read_ends(replies: Seq<Seq<u8>>)
    requires
        replies.len() >= 2 * READ_TRIES,
    ensures
        ({
            let r = SnapshotRead { left: (READ_TRIES - 1) as u8, phase: ReadPhase::Start };
            replied(r, replies).0.phase is Ended
        }),
{
    lemma_asks(replies);
}

/// The torn-window guard: a snapshot is taken on the very pair that it was read
/// with, and only where the two sequence numbers agree or no pair is left.
pub proof fn law_torn_window_is_read_again(r: SnapshotRead, snap: TelemetrySnapshot, window: Seq<u8>)
    requires
        r.phase == (ReadPhase::Window { snap }),
        window.len() >= IDENT_LEN,
    ensures
        r.after(Some(window)).1 == ReadAct::Take(snap) <==> le16(window, 10) == snap.agg_seq || r.left
            == 0,
        le16(window, 10) != snap.agg_seq && r.left > 0 ==> r.after(Some(window)).1
            == ReadAct::Telemetry,
{
}

/// A short telemetry reply ends the read before the window is asked for.
pub proof fn law_short_telemetry_ends_it(r: SnapshotRead, raw: Seq<u8>)
    requires
        r.phase == ReadPhase::Telemetry,
        raw.len() < TEL_LEN,
    ensures
        r.after(Some(raw)).1 == ReadAct::ShortTelemetry,
        r.after(Some(raw)).0.phase is Ended,
{
}

/// One reply: a telemetry block of 96 bytes or more becomes the snapshot at
/// 0x200, a shorter one ends the read; a window block of 12 bytes or more is
/// held against the snapshot by the number in its last two bytes.
pub proof fn law_reply_judged(r: SnapshotRead, raw: Seq<u8>)
    ensures
        r.phase == ReadPhase::Telemetry && raw.len() < 96 ==> r.after(Some(raw)).1
            == ReadAct::ShortTelemetry,
        r.phase == ReadPhase::Telemetry && raw.len() >= 96 ==> r.after(Some(raw)).1
            == ReadAct::Window && r.after(Some(raw)).0 == (SnapshotRead {
            left: r.left,
            phase: ReadPhase::Window { snap: snapshot_in(0x200, raw) },
        }),
        r.phase matches ReadPhase::Window { snap } ==> {
            let (next, act) = r.after(Some(raw));
            let same = raw[10] + 256 * raw[11] == snap.agg_seq;
            &&& raw.len() < 12 ==> act == ReadAct::ShortWindow
            &&& raw.len() >= 12 && (same || r.left == 0) ==> act == ReadAct::Take(snap)
            &&& raw.len() >= 12 && !same && r.left > 0 ==> act == ReadAct::Telemetry && next.left
                == r.left - 1 && next.phase == ReadPhase::Telemetry
        },
        r.phase == ReadPhase::Telemetry ==> r.after(None) == (r, ReadAct::Telemetry),
        r.phase is Window ==> r.after(None) == (r, ReadAct::Window),
        r.phase == ReadPhase::Start ==> r.after(None).1 == ReadAct::Telemetry && r.after(
            None,
        ).0.phase == ReadPhase::Telemetry && r.after(None).0.left == r.left,
        READ_TRIES == 3,
{
}

} // verus!
