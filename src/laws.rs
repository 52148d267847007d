//! Laws of the resolution chain, stated over `Resolution::step_to` and
//! `Resolution::action_spec`, which `advance` and `next_action` ensure.
use vstd::prelude::*;
use crate::resolver::{
    calls_so_far, Action, ConfirmationInfo, ConfirmationResult, Event, FlightPlanLinkSet,
    Itinerary, Parcel, Phase, Resolution, User,
};
use crate::stage::{chain, ResolutionError, Stage};

verus! {

/// `states` is a run that takes in `events` one after the other.
pub open spec fn is_run(states: Seq<Resolution>, events: Seq<Event>) -> bool {
    &&& states.len() == events.len() + 1
    &&& forall|j: int|
        0 <= j < events.len() ==> Resolution::step_to(states[j], #[trigger] events[j], states[j + 1])
}

/// The events of a chain in which every sub-client is obtained and every
/// lookup returns its record.
pub open spec fn full_chain_events(
    p: Parcel,
    i: Itinerary,
    l: FlightPlanLinkSet,
    u: User,
) -> Seq<Event> {
    seq![
        Event::ClientAcquired,
        Event::ParcelFetched(Some(p)),
        Event::ClientAcquired,
        Event::ItineraryFetched(Some(i)),
        Event::ClientAcquired,
        Event::LinksFetched(Some(l)),
        Event::ClientAcquired,
        Event::UserFetched(Some(u)),
    ]
}

/// A reply that came back without its record.
pub open spec fn is_absent_payload(e: Event) -> bool {
    e is ParcelFetched && e->ParcelFetched_0 is None
        || e is ItineraryFetched && e->ItineraryFetched_0 is None
        || e is LinksFetched && e->LinksFetched_0 is None
        || e is UserFetched && e->UserFetched_0 is None
}

/// A finished resolution waits on nothing: it accepts no event, so it issues
/// no further call.
pub open spec fn is_final(t: Resolution) -> bool {
    forall|e: Event| !#[trigger] t.accepts_spec(e)
}

/// When the whole chain resolves, the resolution succeeds after exactly four
/// reads, in the order parcel, itinerary, flight-plan links, user, each with
/// the identifier taken from the record before it.
pub proof fn lemma_full_chain_succeeds(
    parcel_id: String,
    p: Parcel,
    i: Itinerary,
    l: FlightPlanLinkSet,
    u: User,
    states: Seq<Resolution>,
)
    requires
        states.len() > 0,
        states[0].is_start(parcel_id),
        is_run(states, full_chain_events(p, i, l, u)),
    ensures
        states[1].action_spec() == Action::Call(Stage::Parcel, parcel_id),
        states[3].action_spec() == Action::Call(Stage::Itinerary, p.itinerary_id),
        states[5].action_spec() == Action::Call(Stage::FlightPlanLink, p.itinerary_id),
        states[7].action_spec() == Action::Call(Stage::User, i.user_id),
        states[8].calls@ == chain(),
        states[8].phase == Phase::Finished(
            Ok(
                ConfirmationInfo {
                    parcel_id: parcel_id,
                    itinerary_id: p.itinerary_id,
                    display_name: u.display_name,
                    departure_port_name: None,
                    arrival_port_name: None,
                    departure_timestamp: None,
                    arrival_timestamp: None,
                },
            ),
        ),
        states[8].action_spec() == Action::Finish(Ok(ConfirmationResult { success: true })),
        is_final(states[8]),
{
    let ev = full_chain_events(p, i, l, u);
    assert(Resolution::step_to(states[0], ev[0], states[1]));
    assert(Resolution::step_to(states[1], ev[1], states[2]));
    assert(Resolution::step_to(states[2], ev[2], states[3]));
    assert(Resolution::step_to(states[3], ev[3], states[4]));
    assert(Resolution::step_to(states[4], ev[4], states[5]));
    assert(Resolution::step_to(states[5], ev[5], states[6]));
    assert(Resolution::step_to(states[6], ev[6], states[7]));
    assert(Resolution::step_to(states[7], ev[7], states[8]));
    assert(states[8].calls@ =~= chain());
}

/// When a stage's sub-client cannot be obtained, the resolution fails with
/// `ClientUnavailable` of that stage, having read only the earlier stages.
pub proof fn lemma_client_unavailable_stops(s: Resolution, t: Resolution, k: Stage)
    requires
        s.wf(),
        s.phase == Phase::AwaitClient(k),
        Resolution::step_to(s, Event::ClientUnavailable, t),
    ensures
        t.phase == Phase::Finished(Err(ResolutionError::ClientUnavailable(k))),
        t.action_spec() == Action::Finish(Err(ResolutionError::ClientUnavailable(k))),
        t.calls@ == calls_so_far(k.position()),
        is_final(t),
{
}

/// When a stage's read answers without its record, the resolution fails with
/// `NotFound` of that stage, and that read is the last one issued.
pub proof fn lemma_absent_payload_stops(s: Resolution, e: Event, t: Resolution, k: Stage)
    requires
        s.wf(),
        s.phase == Phase::AwaitReply(k),
        s.accepts_spec(e),
        is_absent_payload(e),
        Resolution::step_to(s, e, t),
    ensures
        t.phase == Phase::Finished(Err(ResolutionError::NotFound(k))),
        t.action_spec() == Action::Finish(Err(ResolutionError::NotFound(k))),
        t.calls@ == calls_so_far(k.position() + 1),
        is_final(t),
{
}

/// When a stage's read itself errors, the resolution fails with
/// `UpstreamFailure` of that stage and the error's message, and that read is
/// the last one issued.
pub proof fn lemma_upstream_failure_stops(s: Resolution, cause: String, t: Resolution, k: Stage)
    requires
        s.wf(),
        s.phase == Phase::AwaitReply(k),
        Resolution::step_to(s, Event::CallFailed(cause), t),
    ensures
        t.phase == Phase::Finished(Err(ResolutionError::UpstreamFailure(k, cause))),
        t.action_spec() == Action::Finish(Err(ResolutionError::UpstreamFailure(k, cause))),
        t.calls@ == calls_so_far(k.position() + 1),
        is_final(t),
{
}

/// An empty set of linked flight plans is no failure: the resolution goes on
/// to the user lookup.
pub proof fn lemma_no_linked_plans_proceeds(s: Resolution, l: FlightPlanLinkSet, t: Resolution)
    requires
        s.wf(),
        s.phase == Phase::AwaitReply(Stage::FlightPlanLink),
        l.flight_plan_ids@.len() == 0,
        Resolution::step_to(s, Event::LinksFetched(Some(l)), t),
    ensures
        t.phase == Phase::AwaitClient(Stage::User),
        t.action_spec() == Action::AcquireClient(Stage::User),
        t.wf(),
{
}

/// A resolution's next state depends on its own state and the event handed
/// to it alone, and it never changes the parcel id it was started with: two
/// resolutions do not see each other's records.
pub proof fn lemma_resolutions_independent(s: Resolution, e: Event, t1: Resolution, t2: Resolution)
    requires
        Resolution::step_to(s, e, t1),
        Resolution::step_to(s, e, t2),
    ensures
        t1.parcel_id == s.parcel_id,
        t1.parcel_id == t2.parcel_id,
        t1.itinerary_id == t2.itinerary_id,
        t1.user_id == t2.user_id,
        t1.linked_flight_plans@ == t2.linked_flight_plans@,
        t1.calls@ == t2.calls@,
        t1.phase == t2.phase,
        t1.action_spec() == t2.action_spec(),
{
}

} // verus!
