pub mod blobs;
pub mod command;
pub mod event;
pub mod log;
pub mod store;

use vstd::prelude::*;

use crate::app_state::event::{DateEvent, Event};
use crate::app_state::store::{lemma_apply_keeps_wf, law_replay_append, Store, StoreView};
use crate::common::date::Date;

verus! {

/// The state of the server: the store, and the log of the events that
/// built it.
pub struct AppState {
    store: Store,
    log_writer: log::memory::Writer,
}

impl AppState {
    #[verifier::type_invariant]
    spec fn store_wf(self) -> bool {
        self.store@.wf()
    }

    /// What the store holds.
    pub closed spec fn store_view(&self) -> StoreView {
        self.store@
    }

    /// The events written to the log.
    pub closed spec fn log(&self) -> Seq<DateEvent> {
        self.log_writer@
    }

    /// A state with an empty store that logs to `logger`.
    pub fn new(logger: log::memory::Writer) -> (r: AppState)
        ensures
            r.store_view() == StoreView::empty(),
            r.log() == logger@,
    {
        AppState { store: Store::new(), log_writer: logger }
    }

    /// A state with the given store that logs to `logger`.
    pub fn new_with_store(store: Store, logger: log::memory::Writer) -> (r: AppState)
        requires
            store@.wf(),
        ensures
            r.store_view() == store@,
            r.log() == logger@,
    {
        AppState { store, log_writer: logger }
    }

    /// A request that happens at `date`.
    pub fn into_app_request(self, date: Date) -> (r: AppRequest)
        ensures
            r.store_view() == self.store_view(),
            r.log() == self.log(),
            r.date() == date,
    {
        AppRequest { app_state: self, date }
    }

    /// A request that happens now.
    pub fn into_request_state_current_time(self) -> (r: AppRequest)
        ensures
            r.store_view() == self.store_view(),
            r.log() == self.log(),
    {
        self.into_app_request(Date::now())
    }

    /// The store.
    pub fn get_store(&self) -> (r: &Store)
        ensures
            r@ == self.store_view(),
            r@.wf(),
    {
        proof {
            use_type_invariant(self);
        }
        &self.store
    }

    /// Applies `event` to the store without logging it.
    pub fn write_unlogged(&mut self, event: DateEvent)
        requires
            old(self).store_view().accepts(event),
        ensures
            final(self).store_view() == old(self).store_view().apply(event),
            final(self).log() == old(self).log(),
    {
        proof {
            use_type_invariant(&*self);
            lemma_apply_keeps_wf(self.store@, event);
        }
        let mut taken = AppState::new(log::memory::Log::new().into_writer());
        std::mem::swap(self, &mut taken);
        let AppState { store: mut store, log_writer } = taken;
        store.on_event(event);
        *self = AppState { store, log_writer };
    }

    /// Logs `event`, then applies it to the store.
    pub fn write(&mut self, event: DateEvent)
        requires
            old(self).store_view().accepts(event),
        ensures
            final(self).store_view() == old(self).store_view().apply(event),
            final(self).log() == old(self).log().push(event),
    {
        proof {
            use_type_invariant(&*self);
            lemma_apply_keeps_wf(self.store@, event);
        }
        let mut taken = AppState::new(log::memory::Log::new().into_writer());
        std::mem::swap(self, &mut taken);
        let AppState { store: mut store, log_writer: mut log_writer } = taken;
        log_writer.write(&event);
        store.on_event(event);
        *self = AppState { store, log_writer };
    }

    /// The events written to the log, first to last.
    pub fn logged(&self) -> (r: &Vec<DateEvent>)
        ensures
            r@ == self.log(),
    {
        self.log_writer.events()
    }

    /// The log that was written, for reading back.
    pub fn into_log(self) -> (r: log::memory::Log)
        ensures
            r@ == self.log(),
    {
        self.log_writer.into_log()
    }
}

/// The server's state as one request sees it: its events happen at the
/// request's date.
pub struct AppRequest {
    app_state: AppState,
    date: Date,
}

impl AppRequest {
    /// What the store holds.
    pub closed spec fn store_view(&self) -> StoreView {
        self.app_state.store_view()
    }

    /// The events written to the log.
    pub closed spec fn log(&self) -> Seq<DateEvent> {
        self.app_state.log()
    }

    /// When the request happens.
    pub closed spec fn date(&self) -> Date {
        self.date
    }

    /// The store.
    pub fn get_store(&self) -> (r: &Store)
        ensures
            r@ == self.store_view(),
            r@.wf(),
    {
        self.app_state.get_store()
    }

    /// When the request happens.
    pub fn get_date(&self) -> (r: Date)
        ensures
            r == self.date(),
    {
        self.date
    }

    /// Logs `event`, dated at the request, and applies it to the store.
    pub fn write(&mut self, event: Event)
        requires
            old(self).store_view().accepts(DateEvent { date: old(self).date(), kind: event }),
        ensures
            final(self).date() == old(self).date(),
            final(self).store_view() == old(self).store_view().apply(
                DateEvent { date: old(self).date(), kind: event },
            ),
            final(self).log() == old(self).log().push(
                DateEvent { date: old(self).date(), kind: event },
            ),
    {
        self.app_state.write(DateEvent { date: self.date, kind: event });
    }

    /// The state, once the request is done.
    pub fn into_app_state(self) -> (r: AppState)
        ensures
            r.store_view() == self.store_view(),
            r.log() == self.log(),
    {
        self.app_state
    }
}

/// A request that wrote nothing: its store and log are as they were.
pub open spec fn unchanged(before: AppRequest, after: AppRequest) -> bool {
    &&& after.store_view() == before.store_view()
    &&& after.log() == before.log()
    &&& after.date() == before.date()
}

/// A request that wrote one event, of kind `kind`, at its date.
pub open spec fn wrote_one(before: AppRequest, after: AppRequest, kind: Event) -> bool {
    let e = DateEvent { date: before.date(), kind };
    &&& after.store_view() == before.store_view().apply(e)
    &&& after.log() == before.log().push(e)
    &&& after.date() == before.date()
}

/// A request that wrote two events, of kinds `first` and then `second`, at
/// its date.
pub open spec fn wrote_two(before: AppRequest, after: AppRequest, first: Event, second: Event) -> bool {
    let e1 = DateEvent { date: before.date(), kind: first };
    let e2 = DateEvent { date: before.date(), kind: second };
    &&& after.store_view() == before.store_view().apply(e1).apply(e2)
    &&& after.log() == before.log().push(e1).push(e2)
    &&& after.date() == before.date()
}

/// Builds the store by applying, in turn, every event that `reader` has
/// still to give.
pub fn create_store_from_log(reader: &mut log::memory::Reader) -> (r: Store)
    requires
        StoreView::empty().accepts_all(old(reader).remaining()),
    ensures
        r@ == StoreView::empty().replay(old(reader).remaining()),
        r@.wf(),
        final(reader).remaining().len() == 0,
        final(reader).events() == old(reader).events(),
{
    let mut store = Store::new();
    let ghost done: Seq<DateEvent> = Seq::empty();
    loop
        invariant
            old(reader).remaining() == done + reader.remaining(),
            reader.events() == old(reader).events(),
            store@ == StoreView::empty().replay(done),
            StoreView::empty().accepts_all(done),
            StoreView::empty().accepts_all(old(reader).remaining()),
            store@.wf(),
        ensures
            old(reader).remaining() == done + reader.remaining(),
            reader.remaining().len() == 0,
            reader.events() == old(reader).events(),
            store@ == StoreView::empty().replay(done),
            store@.wf(),
        decreases reader.remaining().len(),
    {
        let event = match reader.poll_next() {
            Some(event) => event,
            None => {
                break;
            },
        };
        proof {
            assert(old(reader).remaining() =~= done.push(event) + reader.remaining());
            law_replay_append(StoreView::empty(), done, event);
            lemma_accepts_prefix(StoreView::empty(), done.push(event), reader.remaining());
            lemma_apply_keeps_wf(store@, event);
        }
        store.on_event(event);
        proof {
            done = done.push(event);
        }
    }
    proof {
        assert(done =~= old(reader).remaining());
    }
    store
}

/// A store that takes a log takes every prefix of it.
proof fn lemma_accepts_prefix(start: StoreView, prefix: Seq<DateEvent>, rest: Seq<DateEvent>)
    requires
        start.accepts_all(prefix + rest),
    ensures
        start.accepts_all(prefix),
    decreases prefix.len(),
{
    if prefix.len() > 0 {
        assert((prefix + rest)[0] == prefix[0]);
        assert((prefix + rest).drop_first() =~= prefix.drop_first() + rest);
        lemma_accepts_prefix(start.apply(prefix[0]), prefix.drop_first(), rest);
    }
}

/// Whether an empty store takes every event of `events` in turn.
pub fn log_is_replayable(events: &Vec<DateEvent>) -> (r: bool)
    ensures
        r == StoreView::empty().accepts_all(events@),
{
    let mut store = Store::new();
    let mut i: usize = 0;
    while i < events.len()
        invariant
            0 <= i <= events@.len(),
            store@ == StoreView::empty().replay(events@.take(i as int)),
            StoreView::empty().accepts_all(events@.take(i as int)),
        decreases events@.len() - i,
    {
        let event = events[i].clone();
        proof {
            assert(events@.take(i + 1) =~= events@.take(i as int).push(events@[i as int]));
            law_replay_append(StoreView::empty(), events@.take(i as int), events@[i as int]);
        }
        if !store.can_apply(&event) {
            proof {
                if StoreView::empty().accepts_all(events@) {
                    assert(events@.take(i + 1) + events@.skip(i + 1) =~= events@);
                    lemma_accepts_prefix(
                        StoreView::empty(),
                        events@.take(i + 1),
                        events@.skip(i + 1),
                    );
                }
            }
            return false;
        }
        store.on_event(event);
        i = i + 1;
    }
    assert(events@.take(i as int) =~= events@);
    true
}

/// Restarting from the log gives back the store: if a store is what the
/// events of a log built from `start`, then after writing one more event
/// (which the store takes), it is what the longer log builds, and `start`
/// takes the longer log.
pub proof fn law_store_is_log_replay(
    start: StoreView,
    logged: Seq<DateEvent>,
    store: StoreView,
    e: DateEvent,
)
    requires
        start.accepts_all(logged),
        store == start.replay(logged),
        store.accepts(e),
    ensures
        start.accepts_all(logged.push(e)),
        store.apply(e) == start.replay(logged.push(e)),
{
    law_replay_append(start, logged, e);
}

} // verus!
