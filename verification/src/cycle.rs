use vstd::prelude::*;

use crate::errors::Error;
use crate::lookup::entry_result_view;
use crate::record::{CloudflareDnsEntry, EntryView};

verus! {

/// Where a reconciliation cycle stands: which collaborator must act next,
/// or, once the cycle is over, what it ended with.
pub enum CycleStep {
    /// The cache is absent; the record store must be asked for the record.
    Lookup,
    /// A record is in hand; the current public address must be discovered.
    Discover(CloudflareDnsEntry),
    /// The discovered address differs from the record; the record store must
    /// be told the new address for this record.
    Update(CloudflareDnsEntry, String),
    /// The cycle is over: the record to cache, or the error to log.
    Done(Result<CloudflareDnsEntry, Error>),
}

/// Mathematical image of `CycleStep`.
pub enum StepView {
    Lookup,
    Discover(EntryView),
    Update(EntryView, Seq<char>),
    Done(Result<EntryView, Seq<char>>),
}

impl View for CycleStep {
    type V = StepView;

    open spec fn view(&self) -> StepView {
        match self {
            CycleStep::Lookup => StepView::Lookup,
            CycleStep::Discover(entry) => StepView::Discover(entry@),
            CycleStep::Update(entry, ip) => StepView::Update(entry@, ip@),
            CycleStep::Done(r) => StepView::Done(entry_result_view(*r)),
        }
    }
}

/// What one collaborator answered: the event that advances the cycle.
pub enum CycleEvent {
    /// The record store's answer to the lookup.
    LookupDone(Result<CloudflareDnsEntry, Error>),
    /// The discoverer's answer.
    DiscoverDone(Result<String, Error>),
    /// The record store's answer to the update.
    UpdateDone(Result<(), Error>),
}

/// Mathematical image of `CycleEvent`.
pub enum EventView {
    LookupDone(Result<EntryView, Seq<char>>),
    DiscoverDone(Result<Seq<char>, Seq<char>>),
    UpdateDone(Result<(), Seq<char>>),
}

impl View for CycleEvent {
    type V = EventView;

    open spec fn view(&self) -> EventView {
        match self {
            CycleEvent::LookupDone(r) => EventView::LookupDone(entry_result_view(*r)),
            CycleEvent::DiscoverDone(r) => EventView::DiscoverDone(
                match r {
                    Result::Ok(ip) => Result::Ok(ip@),
                    Result::Err(e) => Result::Err(e@),
                },
            ),
            CycleEvent::UpdateDone(r) => EventView::UpdateDone(
                match r {
                    Result::Ok(u) => Result::Ok(*u),
                    Result::Err(e) => Result::Err(e@),
                },
            ),
        }
    }
}

/// The step a cycle begins at for a given cache: a cached record goes
/// straight to discovery, an absent cache must be re-established by a
/// lookup first.
pub open spec fn cycle_start(cache: Option<EntryView>) -> StepView {
    match cache {
        Option::Some(entry) => StepView::Discover(entry),
        Option::None => StepView::Lookup,
    }
}

/// The cycle's transition: one collaborator's answer takes the cycle from
/// one step to the next. A successful lookup hands its record to discovery;
/// a discovered address equal to the record's ends the cycle with the record
/// unchanged, a different one asks for an update; a confirmed update ends
/// the cycle with the record rewritten to the new address; any failure ends
/// the cycle with that error. An answer that does not belong to the current
/// step leaves the step as it is.
pub open spec fn cycle_next(s: StepView, e: EventView) -> StepView {
    match (s, e) {
        (StepView::Lookup, EventView::LookupDone(a)) => match a {
            Result::Ok(entry) => StepView::Discover(entry),
            Result::Err(m) => StepView::Done(Result::Err(m)),
        },
        (StepView::Discover(entry), EventView::DiscoverDone(a)) => match a {
            Result::Ok(ip) => if ip == entry.ip_address {
                StepView::Done(Result::Ok(entry))
            } else {
                StepView::Update(entry, ip)
            },
            Result::Err(m) => StepView::Done(Result::Err(m)),
        },
        (StepView::Update(entry, ip), EventView::UpdateDone(a)) => match a {
            Result::Ok(u) => StepView::Done(
                Result::Ok(EntryView { id: entry.id, ip_address: ip }),
            ),
            Result::Err(m) => StepView::Done(Result::Err(m)),
        },
        (other, _) => other,
    }
}

/// The cache a cycle leaves behind: only a cycle that ended well leaves its
/// record cached; a failed or unfinished one leaves the cache absent.
pub open spec fn cache_of(s: StepView) -> Option<EntryView> {
    match s {
        StepView::Done(Result::Ok(entry)) => Option::Some(entry),
        _ => Option::None,
    }
}

/// The error a cycle reports, if it failed.
pub open spec fn error_of(s: StepView) -> Option<Seq<char>> {
    match s {
        StepView::Done(Result::Err(m)) => Option::Some(m),
        _ => Option::None,
    }
}

/// Spec image of an optional cached entry.
pub open spec fn cache_view(c: Option<CloudflareDnsEntry>) -> Option<EntryView> {
    match c {
        Option::Some(entry) => Option::Some(entry@),
        Option::None => Option::None,
    }
}

/// Spec image of an optional error.
pub open spec fn error_view(e: Option<Error>) -> Option<Seq<char>> {
    match e {
        Option::Some(err) => Option::Some(err@),
        Option::None => Option::None,
    }
}

/// Opens a reconciliation cycle on the current cache.
pub fn start_cycle(cache: Option<CloudflareDnsEntry>) -> (s: CycleStep)
    ensures
        s@ == cycle_start(cache_view(cache)),
{
    match cache {
        Some(entry) => CycleStep::Discover(entry),
        None => CycleStep::Lookup,
    }
}

/// Advances one reconciliation cycle by one collaborator's answer, exactly
/// as `cycle_next` states it. The embedding program performs the call each
/// step asks for — lookup, discovery or update — and feeds the answer back
/// in, until the cycle reaches `Done` and the cache can be taken out.
pub fn update_and_get_cache(step: CycleStep, event: CycleEvent) -> (next: CycleStep)
    ensures
        next@ == cycle_next(step@, event@),
{
    match (step, event) {
        (CycleStep::Lookup, CycleEvent::LookupDone(a)) => match a {
            Ok(entry) => CycleStep::Discover(entry),
            Err(e) => CycleStep::Done(Err(e)),
        },
        (CycleStep::Discover(entry), CycleEvent::DiscoverDone(a)) => match a {
            Ok(ip) => {
                if ip == entry.ip_address {
                    CycleStep::Done(Ok(entry))
                } else {
                    CycleStep::Update(entry, ip)
                }
            },
            Err(e) => CycleStep::Done(Err(e)),
        },
        (CycleStep::Update(entry, ip), CycleEvent::UpdateDone(a)) => match a {
            Ok(_) => CycleStep::Done(Ok(CloudflareDnsEntry { id: entry.id, ip_address: ip })),
            Err(e) => CycleStep::Done(Err(e)),
        },
        (other, _) => other,
    }
}

/// Ends a cycle: the record to cache for the next cycle, and the error to
/// log, if the cycle failed.
pub fn finish_cycle(step: CycleStep) -> (r: (Option<CloudflareDnsEntry>, Option<Error>))
    ensures
        cache_view(r.0) == cache_of(step@),
        error_view(r.1) == error_of(step@),
{
    match step {
        CycleStep::Done(Ok(entry)) => (Some(entry), None),
        CycleStep::Done(Err(e)) => (None, Some(e)),
        _ => (None, None),
    }
}

/// Whether an event reports a collaborator's failure, and with what message.
pub open spec fn event_failure(e: EventView) -> Option<Seq<char>> {
    match e {
        EventView::LookupDone(Result::Err(m)) => Option::Some(m),
        EventView::DiscoverDone(Result::Err(m)) => Option::Some(m),
        EventView::UpdateDone(Result::Err(m)) => Option::Some(m),
        _ => Option::None,
    }
}

/// Whether an event is the answer the given step waits for.
pub open spec fn event_answers(s: StepView, e: EventView) -> bool {
    match (s, e) {
        (StepView::Lookup, EventView::LookupDone(_)) => true,
        (StepView::Discover(_), EventView::DiscoverDone(_)) => true,
        (StepView::Update(_, _), EventView::UpdateDone(_)) => true,
        _ => false,
    }
}

/// Idempotence: when the discovered address equals the cached record's, the
/// cycle ends at once with the record unchanged — it never reaches the
/// update step, so no update call is ever asked for.
pub proof fn lemma_no_update_when_unchanged(entry: EntryView, ip: Seq<char>)
    requires
        ip == entry.ip_address,
    ensures
        cycle_next(StepView::Discover(entry), EventView::DiscoverDone(Result::Ok(ip)))
            == StepView::Done(Result::<EntryView, Seq<char>>::Ok(entry)),
        !(cycle_next(StepView::Discover(entry), EventView::DiscoverDone(Result::Ok(ip)))
            is Update),
{
}

/// Cache invalidation: a failure of any collaborator — lookup, discovery or
/// update — ends the cycle with that error, the cache it leaves is absent,
/// and the next cycle therefore starts with a fresh lookup.
pub proof fn lemma_failure_clears_cache(s: StepView, e: EventView, m: Seq<char>)
    requires
        event_answers(s, e),
        event_failure(e) == Option::Some(m),
    ensures
        cycle_next(s, e) == StepView::Done(Result::<EntryView, Seq<char>>::Err(m)),
        cache_of(cycle_next(s, e)) is None,
        cycle_start(cache_of(cycle_next(s, e))) == StepView::Lookup,
{
}

/// An update is only ever asked for with the record that discovery ran on
/// and the address discovery returned, and a confirmed update caches that
/// record's id with the new address.
pub proof fn lemma_update_writes_discovered_address(entry: EntryView, ip: Seq<char>)
    requires
        ip != entry.ip_address,
    ensures
        cycle_next(StepView::Discover(entry), EventView::DiscoverDone(Result::Ok(ip)))
            == StepView::Update(entry, ip),
        cycle_next(StepView::Update(entry, ip), EventView::UpdateDone(Result::Ok(())))
            == StepView::Done(
            Result::<EntryView, Seq<char>>::Ok(EntryView { id: entry.id, ip_address: ip }),
        ),
{
}

} // verus!
