use svc_contact::ready::ReadyServerImpl;
use svc_contact::resolver::{
    Action, ConfirmationInfo, ConfirmationResult, Event, FlightPlanLinkSet, Itinerary, Parcel,
    Phase, Resolution, User,
};
use svc_contact::stage::{ResolutionError, Stage};

fn parcel(id: &str, itinerary_id: &str) -> Parcel {
    Parcel { id: id.to_string(), itinerary_id: itinerary_id.to_string() }
}

fn itinerary(id: &str, user_id: &str) -> Itinerary {
    Itinerary { id: id.to_string(), user_id: user_id.to_string() }
}

fn user(id: &str, display_name: &str) -> User {
    User { id: id.to_string(), display_name: display_name.to_string() }
}

fn links(ids: &[&str]) -> FlightPlanLinkSet {
    FlightPlanLinkSet { flight_plan_ids: ids.iter().map(|s| s.to_string()).collect() }
}

/// Feeds the events one by one, recording every action asked for, the
/// final one included.
fn drive(parcel_id: &str, events: Vec<Event>) -> (Resolution, Vec<Action>) {
    let mut r = Resolution::new(parcel_id.to_string());
    let mut actions = vec![r.next_action()];
    for e in events {
        assert!(r.accepts(&e));
        r.advance(e);
        actions.push(r.next_action());
    }
    (r, actions)
}

fn calls_of(actions: &[Action]) -> Vec<(Stage, String)> {
    actions
        .iter()
        .filter_map(|a| match a {
            Action::Call(k, id) => Some((*k, id.clone())),
            _ => None,
        })
        .collect()
}

#[test]
fn full_chain_resolves() {
    let (r, actions) = drive(
        "P1",
        vec![
            Event::ClientAcquired,
            Event::ParcelFetched(Some(parcel("P1", "I1"))),
            Event::ClientAcquired,
            Event::ItineraryFetched(Some(itinerary("I1", "U1"))),
            Event::ClientAcquired,
            Event::LinksFetched(Some(links(&[]))),
            Event::ClientAcquired,
            Event::UserFetched(Some(user("U1", "Jane Doe"))),
        ],
    );
    assert_eq!(
        calls_of(&actions),
        vec![
            (Stage::Parcel, "P1".to_string()),
            (Stage::Itinerary, "I1".to_string()),
            (Stage::FlightPlanLink, "I1".to_string()),
            (Stage::User, "U1".to_string()),
        ]
    );
    assert_eq!(r.calls, vec![Stage::Parcel, Stage::Itinerary, Stage::FlightPlanLink, Stage::User]);
    assert_eq!(
        actions.last(),
        Some(&Action::Finish(Ok(ConfirmationResult { success: true })))
    );
    assert_eq!(
        r.phase,
        Phase::Finished(Ok(ConfirmationInfo {
            parcel_id: "P1".to_string(),
            itinerary_id: "I1".to_string(),
            display_name: "Jane Doe".to_string(),
            departure_port_name: None,
            arrival_port_name: None,
            departure_timestamp: None,
            arrival_timestamp: None,
        }))
    );
    assert!(r.finished());
    assert!(!r.accepts(&Event::ClientAcquired));
}

#[test]
fn missing_parcel_is_not_found() {
    let (r, actions) = drive("P404", vec![Event::ClientAcquired, Event::ParcelFetched(None)]);
    assert_eq!(
        actions.last(),
        Some(&Action::Finish(Err(ResolutionError::NotFound(Stage::Parcel))))
    );
    assert_eq!(calls_of(&actions), vec![(Stage::Parcel, "P404".to_string())]);
    assert_eq!(r.calls, vec![Stage::Parcel]);
    assert!(r.finished());
}

#[test]
fn client_unavailable_at_each_stage() {
    let prefix = vec![
        Event::ClientAcquired,
        Event::ParcelFetched(Some(parcel("PQ", "I1"))),
        Event::ClientAcquired,
        Event::ItineraryFetched(Some(itinerary("I1", "U1"))),
        Event::ClientAcquired,
        Event::LinksFetched(Some(links(&["F1"]))),
    ];
    let stages = [Stage::Parcel, Stage::Itinerary, Stage::FlightPlanLink, Stage::User];
    for (n, k) in stages.iter().enumerate() {
        let mut events: Vec<Event> = prefix[..2 * n].to_vec();
        events.push(Event::ClientUnavailable);
        let (r, actions) = drive("PQ", events);
        assert_eq!(
            actions.last(),
            Some(&Action::Finish(Err(ResolutionError::ClientUnavailable(*k))))
        );
        assert_eq!(r.calls, stages[..n].to_vec());
        assert!(r.finished());
    }
}

#[test]
fn upstream_failure_carries_stage_and_cause() {
    let (r, actions) = drive(
        "PQ",
        vec![
            Event::ClientAcquired,
            Event::ParcelFetched(Some(parcel("PQ", "I1"))),
            Event::ClientAcquired,
            Event::CallFailed("deadline exceeded".to_string()),
        ],
    );
    let err = ResolutionError::UpstreamFailure(Stage::Itinerary, "deadline exceeded".to_string());
    assert_eq!(actions.last(), Some(&Action::Finish(Err(err.clone()))));
    assert_eq!(r.calls, vec![Stage::Parcel, Stage::Itinerary]);
    assert_eq!(err.stage(), Stage::Itinerary);
    assert_eq!(err.duplicate(), err);
}

#[test]
fn missing_links_body_and_missing_user_are_not_found() {
    let (_, actions) = drive(
        "PQ",
        vec![
            Event::ClientAcquired,
            Event::ParcelFetched(Some(parcel("PQ", "I1"))),
            Event::ClientAcquired,
            Event::ItineraryFetched(Some(itinerary("I1", "U1"))),
            Event::ClientAcquired,
            Event::LinksFetched(None),
        ],
    );
    assert_eq!(
        actions.last(),
        Some(&Action::Finish(Err(ResolutionError::NotFound(Stage::FlightPlanLink))))
    );
    let (r, actions) = drive(
        "PQ",
        vec![
            Event::ClientAcquired,
            Event::ParcelFetched(Some(parcel("PQ", "I1"))),
            Event::ClientAcquired,
            Event::ItineraryFetched(Some(itinerary("I1", "U1"))),
            Event::ClientAcquired,
            Event::LinksFetched(Some(links(&["F1", "F2"]))),
            Event::ClientAcquired,
            Event::UserFetched(None),
        ],
    );
    assert_eq!(
        actions.last(),
        Some(&Action::Finish(Err(ResolutionError::NotFound(Stage::User))))
    );
    assert_eq!(r.linked_flight_plans, vec!["F1".to_string(), "F2".to_string()]);
}

#[test]
fn empty_link_set_proceeds_to_user() {
    let (r, actions) = drive(
        "PQ",
        vec![
            Event::ClientAcquired,
            Event::ParcelFetched(Some(parcel("PQ", "I1"))),
            Event::ClientAcquired,
            Event::ItineraryFetched(Some(itinerary("I1", "U1"))),
            Event::ClientAcquired,
            Event::LinksFetched(Some(links(&[]))),
        ],
    );
    assert_eq!(actions.last(), Some(&Action::AcquireClient(Stage::User)));
    assert_eq!(r.phase, Phase::AwaitClient(Stage::User));
    assert!(!r.finished());
}

#[test]
fn interleaved_resolutions_keep_their_own_records() {
    let mut a = Resolution::new("PA".to_string());
    let mut b = Resolution::new("PB".to_string());
    a.advance(Event::ClientAcquired);
    b.advance(Event::ClientAcquired);
    assert_eq!(a.next_action(), Action::Call(Stage::Parcel, "PA".to_string()));
    assert_eq!(b.next_action(), Action::Call(Stage::Parcel, "PB".to_string()));
    b.advance(Event::ParcelFetched(Some(parcel("PB", "IB"))));
    a.advance(Event::ParcelFetched(Some(parcel("PA", "IA"))));
    a.advance(Event::ClientAcquired);
    b.advance(Event::ClientAcquired);
    assert_eq!(a.next_action(), Action::Call(Stage::Itinerary, "IA".to_string()));
    assert_eq!(b.next_action(), Action::Call(Stage::Itinerary, "IB".to_string()));
}

#[test]
fn events_out_of_turn_are_refused() {
    let r = Resolution::new("PQ".to_string());
    assert!(!r.accepts(&Event::ParcelFetched(None)));
    assert!(!r.accepts(&Event::CallFailed("x".to_string())));
    assert!(r.accepts(&Event::ClientUnavailable));
    let (r, _) = drive("PQ", vec![Event::ClientAcquired]);
    assert!(r.accepts(&Event::ParcelFetched(None)));
    assert!(!r.accepts(&Event::UserFetched(None)));
    assert!(!r.accepts(&Event::ClientAcquired));
}

#[test]
fn liveness_is_always_ready() {
    let responder = ReadyServerImpl::default();
    let _pending = drive("PQ", vec![Event::ClientAcquired]);
    assert!(responder.is_ready().ready);
}

#[test]
fn stage_names() {
    assert_eq!(Stage::Parcel.name(), "parcel");
    assert_eq!(Stage::Itinerary.name(), "itinerary");
    assert_eq!(Stage::FlightPlanLink.name(), "flight_plan_link");
    assert_eq!(Stage::User.name(), "user");
}
