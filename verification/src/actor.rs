//! The cache actor: the single owner of the snapshot.
//!
//! The actor holds the current page text and consumes one input at a
//! time: a read request, which it answers with a copy of the snapshot,
//! or the outcome of a scheduled refresh, which replaces the snapshot
//! wholesale (with the freshly rendered page on success, with the empty
//! text on failure). Because every input runs to completion before the
//! next is looked at, a reader can only ever receive a value some
//! single transition produced — the laws at the end of this module pin
//! that down over whole input histories.
//!
//! The run loop itself — the channel, the timer, the awaits — is
//! ordinary plumbing outside this library; it owns one `CacheActor`
//! and calls one method per input.

use vstd::prelude::*;

use crate::records::Applications;
use crate::render::render_applications;
use crate::render::spec_render_applications;

verus! {

/// One input of the actor, at the level of the model: a read request,
/// or the outcome of a refresh carrying the rendered page.
pub enum Event {
    Read,
    RefreshOk(Seq<char>),
    RefreshFailed,
}

/// The text a successful refresh carried; the empty text for any other
/// input.
pub open spec fn refresh_text(event: Event) -> Seq<char> {
    match event {
        Event::RefreshOk(text) => text,
        _ => Seq::empty(),
    }
}

/// The snapshot after one input, given the snapshot before it: a read
/// leaves it alone, a successful refresh replaces it, a failed refresh
/// clears it.
pub open spec fn step(snapshot: Seq<char>, event: Event) -> Seq<char> {
    match event {
        Event::Read => snapshot,
        Event::RefreshOk(text) => text,
        Event::RefreshFailed => Seq::empty(),
    }
}

/// The snapshot after a whole history of inputs, consumed in order,
/// starting from `init`.
pub open spec fn run(init: Seq<char>, events: Seq<Event>) -> Seq<char>
    decreases events.len(),
{
    if events.len() == 0 {
        init
    } else {
        step(run(init, events.drop_last()), events.last())
    }
}

/// The reply a read served as input number `i` receives: the snapshot
/// after the `i` inputs before it.
pub open spec fn reply_at(init: Seq<char>, events: Seq<Event>, i: int) -> Seq<char> {
    run(init, events.take(i))
}

/// The owner of the snapshot. Exactly one of these exists per process,
/// and nothing else ever writes the text it serves.
pub struct CacheActor {
    snapshot: String,
}

impl View for CacheActor {
    type V = Seq<char>;

    closed spec fn view(&self) -> Seq<char> {
        self.snapshot@
    }
}

/// Relies on chrono's `Utc::now`: reads the system clock; nothing is
/// promised of the value it returns.
#[verifier::external_body]
fn current_unix_time() -> i64 {
    chrono::Utc::now().timestamp()
}

impl CacheActor {
    /// A fresh actor serves the empty text until its first refresh.
    pub fn new() -> (actor: CacheActor)
        ensures
            actor@ == Seq::<char>::empty(),
    {
        CacheActor { snapshot: String::new() }
    }

    /// Answers one read request with a copy of the current snapshot —
    /// a copy, so that a later replacement cannot touch a reply already
    /// handed out. The snapshot itself is not changed.
    pub fn handle_read(&self) -> (reply: String)
        ensures
            reply@ == self@,
            reply@ == step(self@, Event::Read),
    {
        self.snapshot.clone()
    }

    /// Applies the outcome of one refresh as seen from the instant
    /// `now`: a successful fetch replaces the snapshot with the page
    /// rendered from it, a failed fetch clears the snapshot, so that an
    /// outage reads as "no data" rather than as data of unknown age.
    pub fn apply_refresh_at(&mut self, fetched: Option<&Applications>, now: i64)
        ensures
            match fetched {
                Some(apps) => final(self)@ == step(
                    old(self)@,
                    Event::RefreshOk(spec_render_applications(apps@, now as int)),
                ),
                None => final(self)@ == step(old(self)@, Event::RefreshFailed),
            },
    {
        match fetched {
            Some(apps) => {
                self.snapshot = render_applications(apps, now);
            },
            None => {
                self.snapshot = String::new();
            },
        }
    }

    /// Applies the outcome of one refresh against the clock. Whatever
    /// instant the clock returns, the new snapshot is the complete page
    /// rendered at that instant, or the empty text on failure.
    pub fn apply_refresh(&mut self, fetched: Option<&Applications>)
        ensures
            match fetched {
                Some(apps) => exists|now: int|
                    final(self)@ == step(
                        old(self)@,
                        Event::RefreshOk(spec_render_applications(apps@, now)),
                    ),
                None => final(self)@ == step(old(self)@, Event::RefreshFailed),
            },
    {
        let now = current_unix_time();
        self.apply_refresh_at(fetched, now);
        proof {
            if fetched is Some {
                let apps = fetched->0;
                assert(self@ == step(
                    old(self)@,
                    Event::RefreshOk(spec_render_applications(apps@, now as int)),
                ));
            }
        }
    }
}

/// Law: reads are idempotent. Over any stretch of the history that
/// holds only read requests, every read receives the same reply,
/// byte for byte.
pub proof fn lemma_reads_idempotent(init: Seq<char>, events: Seq<Event>, i: int, j: int)
    requires
        0 <= i <= j <= events.len(),
        forall|k: int| i <= k < j ==> events[k] is Read,
    ensures
        reply_at(init, events, j) == reply_at(init, events, i),
    decreases j - i,
{
    if i < j {
        assert(events.take(j).drop_last() =~= events.take(j - 1));
        assert(events.take(j).last() == events[j - 1]);
        lemma_reads_idempotent(init, events, i, j - 1);
    }
}

/// Law: a successful refresh is visible to every read until the next
/// refresh. If input `j` was a refresh that carried some text, a read
/// served at any position `i` after it — with nothing but reads in
/// between — receives exactly that text, however many such reads there
/// are.
pub proof fn lemma_reads_after_refresh(init: Seq<char>, events: Seq<Event>, j: int, i: int)
    requires
        0 <= j < i <= events.len(),
        events[j] is RefreshOk,
        forall|k: int| j < k < i ==> events[k] is Read,
    ensures
        reply_at(init, events, i) == refresh_text(events[j]),
{
    assert(events.take(j + 1).drop_last() =~= events.take(j));
    assert(events.take(j + 1).last() == events[j]);
    lemma_reads_idempotent(init, events, j + 1, i);
}

/// Law: a failed refresh leaves the empty text behind, and every read
/// until the next refresh receives exactly that empty text — an
/// outage is served as "no data", never as an error and never as stale
/// data.
pub proof fn lemma_reads_after_failed_refresh(init: Seq<char>, events: Seq<Event>, j: int, i: int)
    requires
        0 <= j < i <= events.len(),
        events[j] is RefreshFailed,
        forall|k: int| j < k < i ==> events[k] is Read,
    ensures
        reply_at(init, events, i) == Seq::<char>::empty(),
{
    assert(events.take(j + 1).drop_last() =~= events.take(j));
    assert(events.take(j + 1).last() == events[j]);
    lemma_reads_idempotent(init, events, j + 1, i);
}

/// Law: no read ever observes a torn value. After any history, the
/// snapshot is the untouched initial text, the empty text, or the
/// complete text of one successful refresh in the history — never a
/// mixture of two values.
pub proof fn lemma_read_is_complete_value(init: Seq<char>, events: Seq<Event>)
    ensures
        run(init, events) == init || run(init, events) == Seq::<char>::empty() || exists|j: int|
            0 <= j < events.len() && #[trigger] events[j] is RefreshOk && run(init, events)
                == refresh_text(events[j]),
    decreases events.len(),
{
    if events.len() > 0 {
        let prefix = events.drop_last();
        lemma_read_is_complete_value(init, prefix);
        match events.last() {
            Event::Read => {
                assert(run(init, events) == run(init, prefix));
                if run(init, prefix) != init && run(init, prefix) != Seq::<char>::empty() {
                    let j = choose|j: int|
                        0 <= j < prefix.len() && #[trigger] prefix[j] is RefreshOk && run(
                            init,
                            prefix,
                        ) == refresh_text(prefix[j]);
                    assert(events[j] is RefreshOk && run(init, events) == refresh_text(events[j]));
                }
            },
            Event::RefreshOk(text) => {
                let j = events.len() - 1;
                assert(events[j] is RefreshOk && run(init, events) == refresh_text(events[j]));
            },
            Event::RefreshFailed => {
                assert(run(init, events) == Seq::<char>::empty());
            },
        }
    }
}

} // verus!
