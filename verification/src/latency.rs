use vstd::prelude::*;

verus! {

/// How a read from the watched stream ended.
#[derive(Debug, Clone, Copy, PartialEq, Eq, Structural)]
pub enum ReadResult {
    /// Nothing to read yet.
    Pending,
    /// The read failed.
    Failed,
    /// The read succeeded; how full the buffer was before it and after it.
    Ready { filled_before: usize, filled_after: usize },
}

impl ReadResult {
    /// The read brought at least one byte.
    pub open spec fn brings_bytes(self) -> bool {
        self matches ReadResult::Ready { filled_before, filled_after } && filled_after
            > filled_before
    }
}

/// Something that happens during a timed relay.
#[derive(Debug, Clone, Copy, PartialEq, Eq, Structural)]
pub enum WatchEvent {
    /// A read, `elapsed_us` microseconds after the relay began.
    Read { result: ReadResult, elapsed_us: u128 },
    /// The time limit for the first byte has run out.
    Deadline,
}

/// Microseconds as they are recorded: in 64 bits, wrapping around.
pub open spec fn recorded_us(elapsed_us: u128) -> u64 {
    (elapsed_us as int % 0x1_0000_0000_0000_0000) as u64
}

/// Watches a relay for the arrival of the first byte.
///
/// If no first byte arrives within the limit, the latency is marked as exceeded, but the
/// relay is not stopped: the mark says how to report the peer once the relay is over.
#[derive(Debug, Clone, Copy, PartialEq, Eq, Structural)]
pub struct LatencyWatch {
    /// The time limit for the first byte, in milliseconds.
    pub max_latency_ms: u32,
    /// When the first byte arrived, in microseconds after the relay began.
    pub first_byte_us: Option<u64>,
    /// Whether the limit ran out before the first byte.
    pub exceeded: bool,
}

impl LatencyWatch {
    /// The watch at the beginning of a relay.
    pub open spec fn initial(max_latency_ms: u32) -> LatencyWatch {
        LatencyWatch { max_latency_ms, first_byte_us: None, exceeded: false }
    }

    /// The watch after an event: the first read that brings bytes is recorded, once; a
    /// deadline before it marks the latency as exceeded.
    pub open spec fn after(self, event: WatchEvent) -> LatencyWatch {
        match event {
            WatchEvent::Read { result, elapsed_us } => if result.brings_bytes()
                && self.first_byte_us is None {
                LatencyWatch { first_byte_us: Some(recorded_us(elapsed_us)), ..self }
            } else {
                self
            },
            WatchEvent::Deadline => LatencyWatch {
                exceeded: self.exceeded || self.first_byte_us is None,
                ..self
            },
        }
    }

    /// Begins a watch with a limit in milliseconds.
    pub fn new(max_latency_ms: u32) -> (watch: Self)
        ensures
            watch == Self::initial(max_latency_ms),
            watch.max_latency_ms == max_latency_ms,
            watch.first_byte_us is None,
            !watch.exceeded,
    {
        LatencyWatch { max_latency_ms, first_byte_us: None, exceeded: false }
    }

    /// Takes note of a read, made `elapsed_us` microseconds after the relay began.
    pub fn on_read(&mut self, result: ReadResult, elapsed_us: u128)
        ensures
            *final(self) == old(self).after(WatchEvent::Read { result, elapsed_us }),
            final(self).max_latency_ms == old(self).max_latency_ms,
            final(self).exceeded == old(self).exceeded,
            old(self).first_byte_us is Some ==> final(self).first_byte_us
                == old(self).first_byte_us,
            old(self).first_byte_us is None ==> match result {
                ReadResult::Ready { filled_before, filled_after } => {
                    &&& filled_after <= filled_before ==> final(self).first_byte_us is None
                    &&& filled_after > filled_before ==> {
                        &&& final(self).first_byte_us matches Some(us)
                        &&& us as int == elapsed_us as int % 0x1_0000_0000_0000_0000
                    }
                },
                _ => final(self).first_byte_us is None,
            },
    {
        if let ReadResult::Ready { filled_before, filled_after } = result {
            if filled_after > filled_before && self.first_byte_us.is_none() {
                self.first_byte_us = Some((elapsed_us % 0x1_0000_0000_0000_0000) as u64);
            }
        }
    }

    /// Takes note that the time limit has run out. Returns whether no first byte had
    /// arrived by then.
    pub fn on_deadline(&mut self) -> (late: bool)
        ensures
            *final(self) == old(self).after(WatchEvent::Deadline),
            late == (old(self).first_byte_us is None),
            final(self).max_latency_ms == old(self).max_latency_ms,
            final(self).first_byte_us == old(self).first_byte_us,
            final(self).exceeded == (old(self).exceeded || old(self).first_byte_us is None),
    {
        if self.first_byte_us.is_some() {
            false
        } else {
            self.exceeded = true;
            true
        }
    }
}

/// The watch after a series of events.
pub open spec fn watched(start: LatencyWatch, events: Seq<WatchEvent>) -> LatencyWatch
    decreases events.len(),
{
    if events.len() == 0 {
        start
    } else {
        watched(start, events.drop_last()).after(events.last())
    }
}

/// The event at `i` is a successful read that leaves more in the buffer than was there.
pub open spec fn bytes_at(events: Seq<WatchEvent>, i: int) -> bool {
    &&& 0 <= i < events.len()
    &&& events[i] matches WatchEvent::Read {
        result: ReadResult::Ready { filled_before, filled_after },
        elapsed_us,
    }
    &&& filled_after > filled_before
}

/// The event at `i` is the first read that brings bytes.
pub open spec fn first_bytes_at(events: Seq<WatchEvent>, i: int) -> bool {
    bytes_at(events, i) && forall|j: int| 0 <= j < i ==> !#[trigger] bytes_at(events, j)
}

/// The event at `i` is a deadline, and no bytes came before it.
pub open spec fn late_at(events: Seq<WatchEvent>, i: int) -> bool {
    &&& 0 <= i < events.len()
    &&& events[i] == WatchEvent::Deadline
    &&& forall|j: int| 0 <= j < i ==> !#[trigger] bytes_at(events, j)
}

/// Nothing has arrived and nothing is exceeded when a watch begins.
pub proof fn law_watch_begins_empty(max_latency_ms: u32)
    ensures
        LatencyWatch::initial(max_latency_ms).max_latency_ms == max_latency_ms,
        LatencyWatch::initial(max_latency_ms).first_byte_us is None,
        !LatencyWatch::initial(max_latency_ms).exceeded,
{
}

/// A read that fills the buffer any further, however full it was before, counts as the
/// arrival of bytes: a deadline after it marks nothing. The first such read is recorded
/// with its time, and a later one changes nothing.
pub proof fn law_bytes_in_time_are_not_late(
    watch: LatencyWatch,
    filled_before: usize,
    filled_after: usize,
    elapsed_us: u128,
)
    requires
        filled_after > filled_before,
    ensures
        ({
            let result = ReadResult::Ready { filled_before, filled_after };
            let read = watch.after(WatchEvent::Read { result, elapsed_us });
            &&& read.first_byte_us is Some
            &&& read.exceeded == watch.exceeded
            &&& read.max_latency_ms == watch.max_latency_ms
            &&& read.after(WatchEvent::Deadline) == read
            &&& watch.first_byte_us is Some ==> read == watch
            &&& watch.first_byte_us is None && elapsed_us <= u64::MAX ==> read.first_byte_us
                == Some(elapsed_us as u64)
            &&& watch.first_byte_us is None ==> read.first_byte_us->0 as int == elapsed_us as int
                % 0x1_0000_0000_0000_0000
        }),
{
}

/// A read that is pending, that fails, or that leaves the buffer as it was, changes
/// nothing.
pub proof fn law_reads_without_bytes_change_nothing(
    watch: LatencyWatch,
    filled_before: usize,
    filled_after: usize,
    elapsed_us: u128,
)
    requires
        filled_after <= filled_before,
    ensures
        ({
            let empty = ReadResult::Ready { filled_before, filled_after };
            &&& watch.after(WatchEvent::Read { result: empty, elapsed_us }) == watch
            &&& watch.after(WatchEvent::Read { result: ReadResult::Pending, elapsed_us }) == watch
            &&& watch.after(WatchEvent::Read { result: ReadResult::Failed, elapsed_us }) == watch
        }),
{
}

/// A deadline marks the latency as exceeded if and only if no byte has arrived, or it was
/// marked before, and changes nothing else; no event takes the mark away.
pub proof fn law_deadline_marks_missing_bytes(watch: LatencyWatch, event: WatchEvent)
    ensures
        watch.after(WatchEvent::Deadline).exceeded <==> watch.exceeded
            || watch.first_byte_us is None,
        watch.after(WatchEvent::Deadline).first_byte_us == watch.first_byte_us,
        watch.after(WatchEvent::Deadline).max_latency_ms == watch.max_latency_ms,
        watch.exceeded ==> watch.after(event).exceeded,
{
}

/// What is recorded is the time of the first read that brings bytes, whatever comes
/// after it; nothing is recorded if and only if no read brings bytes.
pub proof fn law_first_byte_is_recorded_once(max_latency_ms: u32, events: Seq<WatchEvent>)
    ensures
        match watched(LatencyWatch::initial(max_latency_ms), events).first_byte_us {
            Some(us) => exists|i: int| #[trigger]
                first_bytes_at(events, i) && us as int == events[i]->elapsed_us as int
                    % 0x1_0000_0000_0000_0000,
            None => forall|i: int| !#[trigger] bytes_at(events, i),
        },
    decreases events.len(),
{
    if events.len() > 0 {
        let before = events.drop_last();
        let last = events.len() - 1;
        law_first_byte_is_recorded_once(max_latency_ms, before);
        let known = watched(LatencyWatch::initial(max_latency_ms), before);
        assert(forall|j: int| 0 <= j < last ==> bytes_at(before, j) == #[trigger] bytes_at(events, j));
        if known.first_byte_us is Some {
            let us = known.first_byte_us->0;
            let i = choose|i: int| #[trigger]
                first_bytes_at(before, i) && us as int == before[i]->elapsed_us as int
                    % 0x1_0000_0000_0000_0000;
            assert(bytes_at(before, i));
            assert(first_bytes_at(events, i));
        } else if bytes_at(events, last) {
            assert(first_bytes_at(events, last));
        }
    }
}

/// The latency is marked as exceeded if and only if the deadline came before the first
/// byte. So a relay that ends before its deadline is not marked, nor is one whose first
/// byte comes in time, and bytes that come late do not take the mark away.
pub proof fn law_exceeded_iff_deadline_before_first_byte(
    max_latency_ms: u32,
    events: Seq<WatchEvent>,
)
    ensures
        watched(LatencyWatch::initial(max_latency_ms), events).exceeded <==> exists|i: int|
            #[trigger] late_at(events, i),
    decreases events.len(),
{
    if events.len() > 0 {
        let before = events.drop_last();
        let last = events.len() - 1;
        law_exceeded_iff_deadline_before_first_byte(max_latency_ms, before);
        law_first_byte_is_recorded_once(max_latency_ms, before);
        let known = watched(LatencyWatch::initial(max_latency_ms), before);
        assert(forall|j: int| 0 <= j < last ==> bytes_at(before, j) == #[trigger] bytes_at(events, j));
        assert forall|i: int| 0 <= i < last implies late_at(before, i) == #[trigger] late_at(
            events,
            i,
        ) by {
            assert(events[i] == before[i]);
            if late_at(before, i) {
                assert forall|j: int| 0 <= j < i implies !#[trigger] bytes_at(events, j) by {
                    assert(!bytes_at(before, j));
                }
            }
            if late_at(events, i) {
                assert forall|j: int| 0 <= j < i implies !#[trigger] bytes_at(before, j) by {
                    assert(!bytes_at(events, j));
                }
            }
        }
        if known.exceeded {
            let i = choose|i: int| #[trigger] late_at(before, i);
            assert(late_at(events, i));
        } else if events[last] == WatchEvent::Deadline {
            if known.first_byte_us is None {
                assert(late_at(events, last));
            } else {
                let us = known.first_byte_us->0;
                let i = choose|i: int| #[trigger]
                    first_bytes_at(before, i) && us as int == before[i]->elapsed_us as int
                    % 0x1_0000_0000_0000_0000;
                assert(bytes_at(events, i));
            }
        }
    }
}

} // verus!
