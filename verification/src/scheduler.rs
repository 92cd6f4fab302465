//! The refresh cycle: when to build the page anew, and what becomes of the
//! page that readers are served.
//!
//! The cycle has two phases. While refreshing, the program around this
//! crate fetches the catalog and renders the page; it reports the outcome
//! as an event. While waiting, it sleeps for the time the scheduler names
//! and reports that the time has passed. The scheduler decides the rest.

use crate::cache::PageCache;
use vstd::prelude::*;

verus! {

/// Seconds to wait after a refresh that succeeded.
pub const UPDATE_INTERVAL: u64 = 7200;

/// Seconds to wait after a refresh that failed.
pub const RETRY_INTERVAL: u64 = 5;

/// Where the cycle stands.
#[derive(Clone, Copy, Debug, PartialEq, Eq, Structural)]
pub enum Phase {
    /// A page is being fetched and built.
    Refreshing,
    /// The next refresh is due once `seconds` have passed.
    Waiting { seconds: u64 },
}

/// Why a refresh did not yield a page.
#[derive(Clone, Copy, Debug, PartialEq, Eq, Structural)]
pub enum Failure {
    /// The catalog could not be fetched.
    Fetch,
    /// The page could not be rendered.
    Render,
}

/// What the program around the scheduler reports to it.
pub enum Event {
    /// A refresh ended with a complete page.
    Refreshed { page: String },
    /// A refresh ended without a page.
    Failed { cause: Failure },
    /// The time to wait has passed.
    Elapsed,
}

/// What the scheduler asks the program around it to do next.
#[derive(Clone, Copy, Debug, PartialEq, Eq, Structural)]
pub enum Action {
    /// Fetch the catalog, build the page and report the outcome.
    Refresh,
    /// Sleep for `seconds`, then report that the time has passed.
    Sleep { seconds: u64 },
}

/// The refresh cycle and its two intervals.
#[derive(Clone, Copy, Debug, PartialEq, Eq, Structural)]
pub struct Scheduler {
    /// Seconds to wait after a refresh that succeeded.
    pub update_interval: u64,
    /// Seconds to wait after a refresh that failed.
    pub retry_interval: u64,
    /// Where the cycle stands.
    pub phase: Phase,
}

impl Scheduler {
    /// Whether an event ends the refresh that is under way with a page.
    pub open spec fn publishes(self, event: Event) -> bool {
        self.phase == Phase::Refreshing && event is Refreshed
    }

    /// The phase that follows an event. An outcome ends a refresh and
    /// starts the wait that fits it; the passing of the time ends a wait.
    /// An event that does not fit the phase changes nothing.
    pub open spec fn phase_after(self, event: Event) -> Phase {
        match (self.phase, event) {
            (Phase::Refreshing, Event::Refreshed { .. }) => Phase::Waiting {
                seconds: self.update_interval,
            },
            (Phase::Refreshing, Event::Failed { .. }) => Phase::Waiting {
                seconds: self.retry_interval,
            },
            (Phase::Waiting { .. }, Event::Elapsed) => Phase::Refreshing,
            _ => self.phase,
        }
    }

    /// The scheduler as an event leaves it.
    pub open spec fn after(self, event: Event) -> Scheduler {
        Scheduler { phase: self.phase_after(event), ..self }
    }

    /// The page that readers are served once an event has been handled:
    /// the new page if the event ends a refresh with one, else the page
    /// from before.
    pub open spec fn page_after(self, page: Seq<char>, event: Event) -> Seq<char> {
        match event {
            Event::Refreshed { page: fresh } if self.phase == Phase::Refreshing => fresh@,
            _ => page,
        }
    }

    /// What a phase calls for.
    pub open spec fn spec_pending(self) -> Action {
        match self.phase {
            Phase::Refreshing => Action::Refresh,
            Phase::Waiting { seconds } => Action::Sleep { seconds },
        }
    }

    /// A scheduler that is about to refresh, with the usual intervals.
    pub fn new() -> (scheduler: Scheduler)
        ensures
            scheduler == (Scheduler {
                update_interval: UPDATE_INTERVAL,
                retry_interval: RETRY_INTERVAL,
                phase: Phase::Refreshing,
            }),
    {
        Scheduler {
            update_interval: UPDATE_INTERVAL,
            retry_interval: RETRY_INTERVAL,
            phase: Phase::Refreshing,
        }
    }

    /// A scheduler that is about to refresh, with intervals of the caller's
    /// choice, in seconds.
    pub fn with_intervals(update_interval: u64, retry_interval: u64) -> (scheduler: Scheduler)
        ensures
            scheduler == (Scheduler { update_interval, retry_interval, phase: Phase::Refreshing }),
    {
        Scheduler { update_interval, retry_interval, phase: Phase::Refreshing }
    }

    /// What the current phase calls for.
    pub fn pending(&self) -> (action: Action)
        ensures
            action == self.spec_pending(),
    {
        match self.phase {
            Phase::Refreshing => Action::Refresh,
            Phase::Waiting { seconds } => Action::Sleep { seconds },
        }
    }

    /// Handles one event: moves the cycle on, publishes the page if the
    /// event brings one for the refresh under way, and says what to do
    /// next. A failed refresh leaves the cache as it is.
    pub fn step(&mut self, cache: &mut PageCache, event: Event) -> (action: Action)
        ensures
            *final(self) == old(self).after(event),
            final(cache)@ == old(self).page_after(old(cache)@, event),
            action == final(self).spec_pending(),
    {
        match self.phase {
            Phase::Refreshing => {
                match event {
                    Event::Refreshed { page } => {
                        cache.publish(page);
                        self.phase = Phase::Waiting { seconds: self.update_interval };
                    },
                    Event::Failed { cause: _ } => {
                        self.phase = Phase::Waiting { seconds: self.retry_interval };
                    },
                    Event::Elapsed => {},
                }
            },
            Phase::Waiting { seconds: _ } => {
                match event {
                    Event::Elapsed => {
                        self.phase = Phase::Refreshing;
                    },
                    _ => {},
                }
            },
        }
        self.pending()
    }
}

/// The scheduler as a run of events leaves it.
pub open spec fn scheduler_after(scheduler: Scheduler, events: Seq<Event>) -> Scheduler
    decreases events.len(),
{
    if events.len() == 0 {
        scheduler
    } else {
        scheduler_after(scheduler, events.drop_last()).after(events.last())
    }
}

/// The page that readers are served once a run of events has been handled.
pub open spec fn page_after_all(scheduler: Scheduler, page: Seq<char>, events: Seq<Event>) -> Seq<
    char,
>
    decreases events.len(),
{
    if events.len() == 0 {
        page
    } else {
        scheduler_after(scheduler, events.drop_last()).page_after(
            page_after_all(scheduler, page, events.drop_last()),
            events.last(),
        )
    }
}

/// A refresh that fails leaves readers the page they had, and is tried
/// again after the short interval.
pub proof fn law_failure_keeps_page(scheduler: Scheduler, page: Seq<char>, cause: Failure)
    ensures
        scheduler.page_after(page, Event::Failed { cause }) == page,
        scheduler.phase == Phase::Refreshing ==> scheduler.after(
            Event::Failed { cause },
        ).spec_pending() == (Action::Sleep { seconds: scheduler.retry_interval }),
{
}

/// A refresh that succeeds gives readers the new page, and the next one is
/// due after the long interval.
pub proof fn law_success_publishes(scheduler: Scheduler, page: Seq<char>, fresh: String)
    requires
        scheduler.phase == Phase::Refreshing,
    ensures
        scheduler.page_after(page, Event::Refreshed { page: fresh }) == fresh@,
        scheduler.after(Event::Refreshed { page: fresh }).spec_pending() == (Action::Sleep {
            seconds: scheduler.update_interval,
        }),
{
}

/// Readers are served the same page for as long as no refresh ends with a
/// new one, whatever else happens in between.
pub proof fn law_page_stays_until_published(
    scheduler: Scheduler,
    page: Seq<char>,
    events: Seq<Event>,
)
    requires
        forall|k: int|
            0 <= k < events.len() ==> !scheduler_after(scheduler, events.take(k)).publishes(
                #[trigger] events[k],
            ),
    ensures
        page_after_all(scheduler, page, events) == page,
    decreases events.len(),
{
    if events.len() > 0 {
        let earlier = events.drop_last();
        assert forall|k: int| 0 <= k < earlier.len() implies !scheduler_after(
            scheduler,
            earlier.take(k),
        ).publishes(#[trigger] earlier[k]) by {
            assert(earlier.take(k) =~= events.take(k));
            assert(earlier[k] == events[k]);
        }
        law_page_stays_until_published(scheduler, page, earlier);
        assert(events.take(events.len() - 1) =~= earlier);
        assert(!scheduler_after(scheduler, earlier).publishes(events[events.len() - 1]));
    }
}

} // verus!
