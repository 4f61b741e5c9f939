use vstd::prelude::*;

use crate::app_state::event::DateEvent;

verus! {

/// An event log kept in memory.
pub struct Log {
    events: Vec<DateEvent>,
}

impl View for Log {
    type V = Seq<DateEvent>;

    closed spec fn view(&self) -> Seq<DateEvent> {
        self.events@
    }
}

impl Log {
    /// An empty log.
    pub fn new() -> (r: Log)
        ensures
            r@ == Seq::<DateEvent>::empty(),
    {
        Log { events: Vec::new() }
    }

    /// A writer that appends to the log.
    pub fn into_writer(self) -> (r: Writer)
        ensures
            r@ == self@,
    {
        Writer { events: self.events }
    }

    /// A reader of the log from its first event.
    pub fn into_reader(self) -> (r: Reader)
        ensures
            r.events() == self@,
            r.remaining() == self@,
    {
        Reader::new(self.events)
    }
}

/// Appends events to an in-memory log.
pub struct Writer {
    events: Vec<DateEvent>,
}

impl View for Writer {
    type V = Seq<DateEvent>;

    closed spec fn view(&self) -> Seq<DateEvent> {
        self.events@
    }
}

impl Writer {
    /// Appends a copy of `event`.
    pub fn write(&mut self, event: &DateEvent)
        ensures
            final(self)@ == old(self)@.push(*event),
    {
        self.events.push(event.clone())
    }

    /// The events written, first to last.
    pub fn events(&self) -> (r: &Vec<DateEvent>)
        ensures
            r@ == self@,
    {
        &self.events
    }

    /// The log with what was written.
    pub fn into_log(self) -> (r: Log)
        ensures
            r@ == self@,
    {
        Log { events: self.events }
    }
}

/// Reads the events of an in-memory log, first to last.
pub struct Reader {
    events: Vec<DateEvent>,
    position: usize,
}

impl Reader {
    #[verifier::type_invariant]
    spec fn position_in_bounds(self) -> bool {
        self.position <= self.events@.len()
    }

    /// All events of the log.
    pub closed spec fn events(&self) -> Seq<DateEvent> {
        self.events@
    }

    /// The events still to be read.
    pub closed spec fn remaining(&self) -> Seq<DateEvent> {
        self.events@.skip(self.position as int)
    }

    pub fn new(events: Vec<DateEvent>) -> (r: Reader)
        ensures
            r.events() == events@,
            r.remaining() == events@,
    {
        let r = Reader { events, position: 0 };
        assert(r.remaining() =~= events@);
        r
    }

    /// The whole log, read or not.
    pub fn into_log(self) -> (r: Log)
        ensures
            r@ == self.events(),
    {
        Log { events: self.events }
    }

    /// The next event, or `None` once all have been read. (Reading an
    /// in-memory log cannot fail.)
    pub fn poll_next(&mut self) -> (r: Option<DateEvent>)
        ensures
            final(self).events() == old(self).events(),
            (r, final(self).remaining()) == next_read(old(self).remaining()),
    {
        proof {
            use_type_invariant(&*self);
        }
        if self.position < self.events.len() {
            let event = self.events[self.position].clone();
            let next = self.position + 1;
            let mut taken = Reader { events: Vec::new(), position: 0 };
            std::mem::swap(self, &mut taken);
            let Reader { events, position: _ } = taken;
            *self = Reader { events, position: next };
            proof {
                assert(self.remaining() =~= old(self).remaining().drop_first());
            }
            Some(event)
        } else {
            None
        }
    }
}

/// What one read of a reader whose unread events are `remaining` gives,
/// and the events left unread after it: the first event, or nothing once
/// all have been read.
pub open spec fn next_read(remaining: Seq<DateEvent>) -> (Option<DateEvent>, Seq<DateEvent>) {
    if remaining.len() == 0 {
        (None, remaining)
    } else {
        (Some(remaining[0]), remaining.drop_first())
    }
}

/// What `n` successive reads of a reader whose unread events are
/// `remaining` give, in turn.
pub open spec fn reads(remaining: Seq<DateEvent>, n: nat) -> Seq<Option<DateEvent>>
    decreases n,
{
    if n == 0 {
        Seq::empty()
    } else {
        seq![next_read(remaining).0] + reads(next_read(remaining).1, (n - 1) as nat)
    }
}

/// The events of a log after writing each of `events`, in turn, to a
/// writer of `log`.
pub open spec fn after_writes(log: Seq<DateEvent>, events: Seq<DateEvent>) -> Seq<DateEvent>
    decreases events.len(),
{
    if events.len() == 0 {
        log
    } else {
        after_writes(log.push(events[0]), events.drop_first())
    }
}

/// Reading back what was written: a log that a writer wrote `events` to,
/// starting empty, once turned into a reader, gives the events in the
/// order in which they were written and then nothing, however often it is
/// read; it never fails.
pub proof fn law_reads_give_back_writes(events: Seq<DateEvent>, extra: nat)
    ensures
        reads(after_writes(Seq::empty(), events), events.len() + extra) == events.map_values(
            |e: DateEvent| Some(e),
        ) + Seq::new(extra, |i: int| None::<DateEvent>),
{
    lemma_after_writes_appends(Seq::empty(), events);
    assert(Seq::<DateEvent>::empty() + events =~= events);
    lemma_reads_all(events, extra);
}

/// Writing events to a log appends them.
proof fn lemma_after_writes_appends(log: Seq<DateEvent>, events: Seq<DateEvent>)
    ensures
        after_writes(log, events) == log + events,
    decreases events.len(),
{
    if events.len() > 0 {
        lemma_after_writes_appends(log.push(events[0]), events.drop_first());
        assert(log.push(events[0]) + events.drop_first() =~= log + events);
    } else {
        assert(log + events =~= log);
    }
}

/// Reading every unread event, and `extra` times more, gives the events and
/// then nothing.
proof fn lemma_reads_all(remaining: Seq<DateEvent>, extra: nat)
    ensures
        reads(remaining, remaining.len() + extra) == remaining.map_values(
            |e: DateEvent| Some(e),
        ) + Seq::new(extra, |i: int| None::<DateEvent>),
    decreases remaining.len() + extra,
{
    let n = remaining.len() + extra;
    let expected = remaining.map_values(|e: DateEvent| Some(e)) + Seq::new(
        extra,
        |i: int| None::<DateEvent>,
    );
    if n == 0 {
        assert(expected =~= Seq::<Option<DateEvent>>::empty());
    } else if remaining.len() == 0 {
        lemma_reads_all(remaining, (extra - 1) as nat);
        assert(expected =~= seq![None::<DateEvent>] + (remaining.map_values(
            |e: DateEvent| Some(e),
        ) + Seq::new((extra - 1) as nat, |i: int| None::<DateEvent>)));
    } else {
        let rest = remaining.drop_first();
        lemma_reads_all(rest, extra);
        assert(rest.len() + extra == (n - 1) as nat);
        assert(expected =~= seq![Some(remaining[0])] + (rest.map_values(|e: DateEvent| Some(e))
            + Seq::new(extra, |i: int| None::<DateEvent>)));
    }
}

} // verus!
